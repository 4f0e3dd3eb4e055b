use mkinvoice::types::{Issuer, Payment, Recipient};

#[test]
fn records_hold_their_fields() {
    let issuer = Issuer {
        name: "Test Issuer".to_string(),
        email: "issuer@test.com".to_string(),
    };
    let recipient = Recipient {
        name: "Test Recipient".to_string(),
        company: "Test Company".to_string(),
        email: "recipient@test.com".to_string(),
    };
    let payment = Payment {
        name: "Test Account".to_string(),
        bsb: "123-456".to_string(),
        acct: "12345678".to_string(),
        bank: "Test Bank".to_string(),
        swift: "TESTSWIFT".to_string(),
    };
    assert_eq!(issuer.email, "issuer@test.com");
    assert_eq!(recipient.company, "Test Company");
    assert_eq!(payment.bsb, "123-456");
    assert_eq!(payment.swift, "TESTSWIFT");
}
