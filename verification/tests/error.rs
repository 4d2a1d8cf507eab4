use irodzuki::IrodzukiError;

#[test]
fn invalid_color_display_carries_payload() {
    let e = IrodzukiError::InvalidColor("ZZZZZZ".into());
    assert_eq!(e.to_string(), "invalid color: ZZZZZZ");
}

#[test]
fn parse_display_carries_payload() {
    let e = IrodzukiError::Parse("bad yaml".into());
    assert_eq!(e.to_string(), "scheme parsing failed: bad yaml");
}

#[test]
fn missing_slot_display_carries_payload() {
    let e = IrodzukiError::MissingSlot("base10".into());
    assert_eq!(e.to_string(), "missing base16 slot: base10");
}

#[test]
fn error_kinds_discriminate() {
    // Each variant must be matchable without collapsing to a shared arm.
    let invalid = IrodzukiError::InvalidColor("x".into());
    let parse = IrodzukiError::Parse("x".into());
    let missing = IrodzukiError::MissingSlot("x".into());
    for e in [invalid, parse, missing] {
        match e {
            IrodzukiError::InvalidColor(_)
            | IrodzukiError::Parse(_)
            | IrodzukiError::MissingSlot(_) => {}
        }
    }
}

#[test]
fn error_messages_with_empty_payload_keep_their_prefix() {
    assert_eq!(IrodzukiError::InvalidColor(String::new()).to_string(), "invalid color: ");
    assert_eq!(IrodzukiError::Parse(String::new()).to_string(), "scheme parsing failed: ");
    assert_eq!(IrodzukiError::MissingSlot(String::new()).to_string(), "missing base16 slot: ");
}
