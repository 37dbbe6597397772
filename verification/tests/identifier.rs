use bookmarks::projection::{from_query_row, QueryRow};

const HASH: &str = "0020cfb0fa37f36d082faad3886a9ffbcc2813b7afe90f0609a556d425f1a76ec805";
const OWNER: &str = "7cf4f58a2d89e93313f2de99604a814ecea9800cf217b140e9c3a7ba59a5d982";

fn is_hash(text: &str) -> bool {
    let digits: Vec<char> = text.chars().collect();
    digits.len() == 68
        && digits.iter().all(|c| c.is_ascii_hexdigit())
        && digits[0] == '0'
        && digits[1] == '0'
}

fn is_view_id(text: &str) -> bool {
    let all: Vec<char> = text.chars().collect();
    if all.len() < 68 || (all.len() + 1) % 69 != 0 {
        return false;
    }
    let count = (all.len() + 1) / 69;
    let at = |i: usize| -> String { all[i * 69..i * 69 + 68].iter().collect() };
    (0..count).all(|i| is_hash(&at(i)))
        && (0..count - 1).all(|i| all[i * 69 + 68] == '_' && at(i) < at(i + 1))
}

fn row(document_id: &str, view_id: &str) -> QueryRow {
    QueryRow {
        document_id: document_id.to_string(),
        view_id: view_id.to_string(),
        owner: OWNER.to_string(),
        url: Some(String::new()),
        description: Some(String::new()),
        timestamp: Some(0),
    }
}

fn hash(kind: &str, length: &str, digit: char) -> String {
    let mut text = format!("{kind}{length}");
    for _ in 0..64 {
        text.push(digit);
    }
    text
}

fn texts_that_are_nearly_hashes() -> Vec<String> {
    let mut texts = vec![
        String::new(),
        "0".to_string(),
        "00".to_string(),
        "0020".to_string(),
        "_".to_string(),
        HASH.to_string(),
        HASH.to_uppercase(),
        HASH[..66].to_string(),
        HASH[..67].to_string(),
        format!("{HASH}0"),
        format!("{HASH}00"),
        format!(" {HASH}"),
        format!("{HASH} "),
        format!("0x{}", &HASH[2..]),
        format!("{}g", &HASH[..67]),
        format!("{}\u{e9}", &HASH[..67]),
        format!("{}\u{e9}", &HASH[..66]),
        format!("{}\u{ff10}", &HASH[..67]),
        format!("{}_", &HASH[..67]),
    ];
    for kind in ["00", "01", "10", "0f", "f8", "ff", "0a", "0A"] {
        for length in ["20", "00", "21", "ff", "FF", "1f"] {
            for digit in ['0', '9', 'a', 'f', 'A', 'F', 'g', 'G', '-'] {
                texts.push(hash(kind, length, digit));
            }
        }
    }
    texts
}

#[test]
fn document_identifiers_are_the_hashes_with_kind_zero() {
    for text in texts_that_are_nearly_hashes() {
        let accepted = from_query_row(row(&text, HASH)).is_ok();
        assert_eq!(accepted, is_hash(&text), "{text:?}");
    }
}

#[test]
fn view_identifiers_are_rising_hashes_joined_by_underscores() {
    let mut texts = texts_that_are_nearly_hashes();
    let parts = [
        hash("00", "20", '0'),
        hash("00", "20", 'a'),
        hash("00", "20", 'A'),
        hash("00", "20", 'f'),
        hash("00", "00", 'f'),
        hash("01", "20", 'f'),
        hash("00", "20", 'g'),
        HASH.to_string(),
        HASH[..67].to_string(),
        String::new(),
    ];
    for a in &parts {
        for b in &parts {
            texts.push(format!("{a}_{b}"));
            texts.push(format!("{a}{b}"));
            texts.push(format!("{a}__{b}"));
            texts.push(format!("{a}-{b}"));
            for c in &parts {
                texts.push(format!("{a}_{b}_{c}"));
            }
        }
        texts.push(format!("_{a}"));
        texts.push(format!("{a}_"));
    }
    let mut accepted_some = 0;
    for text in texts {
        let accepted = from_query_row(row(HASH, &text)).is_ok();
        assert_eq!(accepted, is_view_id(&text), "{text:?}");
        if accepted {
            accepted_some += 1;
        }
    }
    assert!(accepted_some > 20);
}
