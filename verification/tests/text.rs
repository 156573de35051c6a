use lua_effects::error::{EffectError, OutOfBounds, SizeMismatch};
use lua_effects::text::{decimal_string, push_decimal};

#[test]
fn decimal_of_small_and_large_numbers() {
    assert_eq!(decimal_string(0), "0");
    assert_eq!(decimal_string(7), "7");
    assert_eq!(decimal_string(9), "9");
    assert_eq!(decimal_string(10), "10");
    assert_eq!(decimal_string(99), "99");
    assert_eq!(decimal_string(100), "100");
    assert_eq!(decimal_string(307200), "307200");
    assert_eq!(decimal_string(1234567890), "1234567890");
    assert_eq!(decimal_string(usize::MAX), usize::MAX.to_string());
}

#[test]
fn decimal_agrees_with_the_standard_library() {
    let mut n: usize = 1;
    for _ in 0..60 {
        assert_eq!(decimal_string(n), n.to_string());
        assert_eq!(decimal_string(n - 1), (n - 1).to_string());
        n = n.wrapping_mul(3).wrapping_add(1) % (usize::MAX / 2) + 1;
    }
}

#[test]
fn push_decimal_appends() {
    let mut text = String::from("n = ");
    push_decimal(&mut text, 42);
    push_decimal(&mut text, 0);
    assert_eq!(text, "n = 420");
}

#[test]
fn out_of_bounds_message_names_the_coordinate() {
    let report = OutOfBounds { x: 400, y: 1, width: 320, height: 240 };
    assert_eq!(report.message(), "pixel (400, 1) is outside the 320x240 screen");
}

#[test]
fn size_mismatch_message_names_the_length() {
    let mismatch = SizeMismatch { width: 320, height: 240, actual: 16 };
    assert_eq!(mismatch.message(), "frame buffer of 16 bytes does not fit a 320x240 screen");
}

#[test]
fn every_error_has_a_message() {
    assert_eq!(
        EffectError::ScriptLoad("No such file".to_string()).message(),
        "cannot read the script: No such file"
    );
    assert_eq!(
        EffectError::ScriptCompile("unexpected symbol".to_string()).message(),
        "syntax error: unexpected symbol"
    );
    assert_eq!(EffectError::ScriptRuntime("boom".to_string()).message(), "boom");
    assert_eq!(
        EffectError::SizeMismatch(SizeMismatch { width: 2, height: 3, actual: 0 }).message(),
        "frame buffer of 0 bytes does not fit a 2x3 screen"
    );
}
