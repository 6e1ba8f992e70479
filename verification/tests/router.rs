use orchestrator::{decode_instruction, Contract, Error, Instruction, PRICE};

const FT: &str = "token-v3.cheddar.testnet";

fn buyer_of(ins: Instruction) -> Option<String> {
    match ins {
        Instruction::Action { buyer_id } => buyer_id,
    }
}

fn accepted(msg: &str) -> (Result<u128, Error>, Vec<String>) {
    let cfg = Contract::default();
    let mut log: Vec<String> = Vec::new();
    let token = FT.to_string();
    let r = cfg.ft_on_transfer(
        "alice.testnet".to_string(),
        PRICE,
        msg.to_string(),
        &token,
        &mut log,
    );
    (r, log)
}

#[test]
fn notification_rejects_untrusted_sender_unconditionally() {
    let cfg = Contract::default();
    let mut log: Vec<String> = Vec::new();
    let token = "other.token.near".to_string();
    // Amount and payload are otherwise valid; the sender check still rejects.
    let r = cfg.ft_on_transfer(
        "alice.testnet".to_string(),
        PRICE * 10,
        "{\"buyer_id\":\"buyer.testnet\"}".to_string(),
        &token,
        &mut log,
    );
    assert!(matches!(r, Err(Error::UntrustedSender)));
    assert!(log.is_empty());
}

#[test]
fn notification_rejects_amount_below_minimum() {
    let cfg = Contract::default();
    let mut log: Vec<String> = Vec::new();
    let token = FT.to_string();
    let r = cfg.ft_on_transfer(
        "alice.testnet".to_string(),
        PRICE - 1,
        String::new(),
        &token,
        &mut log,
    );
    assert!(matches!(r, Err(Error::AmountBelowMinimum)));
    assert!(log.is_empty());
}

#[test]
fn notification_accepts_amount_at_minimum() {
    let (r, log) = accepted("");
    assert_eq!(r, Ok(0));
    assert_eq!(log, vec!["Sender id: alice.testnet".to_string()]);
}

#[test]
fn bare_deposit_consumes_all_without_instruction_effects() {
    let (r, log) = accepted("");
    assert_eq!(r, Ok(0));
    // Exactly the sender line: no instruction was decoded or recorded.
    assert_eq!(log, vec!["Sender id: alice.testnet".to_string()]);
}

#[test]
fn instruction_with_buyer_consumes_all_and_records_buyer() {
    let (r, log) = accepted("{\"buyer_id\":\"buyer.testnet\"}");
    assert_eq!(r, Ok(0));
    assert_eq!(
        log,
        vec![
            "Sender id: alice.testnet".to_string(),
            "Target buyer id: buyer.testnet".to_string(),
        ]
    );
}

#[test]
fn instruction_without_buyer_consumes_all_and_records_absence() {
    for msg in ["{}", "{ }", "{\"buyer_id\":null}", "{ \"buyer_id\" : null }"] {
        let (r, log) = accepted(msg);
        assert_eq!(r, Ok(0));
        assert_eq!(
            log,
            vec![
                "Sender id: alice.testnet".to_string(),
                "Target buyer id: none".to_string(),
            ]
        );
    }
}

#[test]
fn malformed_instruction_is_a_hard_failure() {
    for msg in ["deposit", "[1]", "{\"other\":1}", "{\"buyer_id\":}", "null"] {
        let (r, log) = accepted(msg);
        assert!(matches!(r, Err(Error::MalformedInstruction)), "payload {:?}", msg);
        // The sender line was already recorded; no instruction line follows.
        assert_eq!(log, vec!["Sender id: alice.testnet".to_string()]);
    }
}

#[test]
fn decode_accepts_buyer_with_surrounding_whitespace() {
    let ins = decode_instruction("  {\t\"buyer_id\"\n: \"b.near\" }\r").unwrap();
    assert_eq!(buyer_of(ins), Some("b.near".to_string()));
}

#[test]
fn decode_accepts_empty_object_as_absent_buyer() {
    for msg in ["{}", "  { }  ", "{\n}"] {
        let ins = decode_instruction(msg).unwrap();
        assert_eq!(buyer_of(ins), None, "payload {:?}", msg);
    }
}

#[test]
fn decode_accepts_null_buyer_as_absent() {
    let ins = decode_instruction("{\"buyer_id\":null}").unwrap();
    assert_eq!(buyer_of(ins), None);
}

#[test]
fn decode_rejects_structural_mismatches() {
    let rejected = [
        "",
        "   ",
        "{",
        "}",
        "{}{}",
        "{} trailing",
        "{\"buyer\":null}",
        "{\"buyer_id\"null}",
        "{\"buyer_id\":}",
        "{\"buyer_id\":nul}",
        "{\"buyer_id\":nullx}",
        "{\"buyer_id\":\"open",
        "{\"buyer_id\":\"a\",\"x\":1}",
        "{\"buyer_id\":\"a\"",
        "\"buyer_id\":\"a\"",
    ];
    for msg in rejected {
        assert!(decode_instruction(msg).is_none(), "payload {:?}", msg);
    }
}

#[test]
fn decode_rejects_escapes_in_buyer() {
    assert!(decode_instruction("{\"buyer_id\":\"a\\\\b\"}").is_none());
}

#[test]
fn decode_keeps_buyer_characters_exact() {
    let ins = decode_instruction("{\"buyer_id\":\"sub.acct-1_x.near\"}").unwrap();
    assert_eq!(buyer_of(ins), Some("sub.acct-1_x.near".to_string()));
}
