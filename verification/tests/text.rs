use coffee_sim_wasm::text::{
    framed, normalize, parse_u32_str, split_chars, str_chars, trim_chars, words_chars,
};

fn string(v: Vec<char>) -> String {
    v.into_iter().collect()
}

fn strings(v: Vec<Vec<char>>) -> Vec<String> {
    v.into_iter().map(|w| w.into_iter().collect()).collect()
}

#[test]
fn text_round_trips_through_characters() {
    let s = "caf\u{e9} \u{2615}";
    assert_eq!(string(str_chars(s)), s);
    assert_eq!(framed("<", &str_chars(s), ">"), format!("<{s}>"));
}

#[test]
fn trimming_and_lowering_follow_std() {
    let s = "\u{3000} MiXeD-Case\t\n";
    assert_eq!(string(normalize(s)), s.trim().to_ascii_lowercase());
    assert_eq!(string(trim_chars(&str_chars("   "))), "");
}

#[test]
fn splitting_follows_std() {
    for s in ["a,,b", "", ",", "x"] {
        let expected: Vec<String> = s.split(',').map(String::from).collect();
        assert_eq!(strings(split_chars(&str_chars(s), ',')), expected);
    }
    for s in ["  a  b\tc ", "", "   ", "one"] {
        let expected: Vec<String> = s.split_whitespace().map(String::from).collect();
        assert_eq!(strings(words_chars(&str_chars(s))), expected);
    }
}

#[test]
fn u32_parsing_follows_std() {
    for s in ["0", "42", "+7", "4294967295", "4294967296", "", "+", "-1", " 1", "1_0", "007"] {
        assert_eq!(parse_u32_str(s), s.parse::<u32>().ok(), "{s}");
    }
}
