use spectral_forge::dsp::guard::is_ready;

#[test]
fn is_ready_none() {
    let s: Option<u8> = None;
    assert!(!is_ready(&s));
}

#[test]
fn is_ready_some() {
    let s: Option<u8> = Some(1);
    assert!(is_ready(&s));
}
