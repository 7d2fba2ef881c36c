use coderadio::text::{cell_width, center};

#[test]
fn center_values() {
    assert_eq!(center("ab", 5), " ab  ");
    assert_eq!(center("ab", 6), "  ab  ");
    assert_eq!(center("ab", 2), "ab");
    assert_eq!(center("abc", 2), "abc");
    assert_eq!(center("", 3), "   ");
    assert_eq!(center("", 0), "");
    assert_eq!(center("é█", 4), " é█ ");
}

#[test]
fn cell_width_counts_speakers_twice() {
    assert_eq!(cell_width(""), 0);
    assert_eq!(cell_width("abc"), 3);
    assert_eq!(cell_width("🔊"), 2);
    assert_eq!(cell_width("🔇 ["), 4);
    assert_eq!(cell_width("💿█░"), 3);
    assert_eq!(cell_width("🔊🔇🔊"), 6);
}

#[test]
fn cell_width_of_two_texts_is_the_sum() {
    let a = "🔊 [";
    let b = "] 100🔇";
    assert_eq!(cell_width(&format!("{a}{b}")), cell_width(a) + cell_width(b));
}
