use localllm_desktop::command::{
    conversation_upsert, like_pattern, limit_clause, message_upsert, save_plan,
};
use localllm_desktop::records::{ConversationRecord, MessageRecord};
use localllm_desktop::text::{
    chars_of, comes_before, contains, contains_folded, decimal_string, find, fold, fold_all, head,
    matches_at, same_text, string_of, two_digit_string,
};

fn v(s: &str) -> Vec<char> {
    s.chars().collect()
}

#[test]
fn characters_and_strings_convert_both_ways() {
    for s in ["", "abc", "Gr\u{fc}\u{df}e \u{1f600}"] {
        assert_eq!(chars_of(s), v(s));
        assert_eq!(string_of(&v(s)), s);
    }
}

#[test]
fn folding_touches_ascii_capitals_only() {
    assert_eq!(fold('A'), 'a');
    assert_eq!(fold('Z'), 'z');
    assert_eq!(fold('a'), 'a');
    assert_eq!(fold('@'), '@');
    assert_eq!(fold('['), '[');
    assert_eq!(fold('\u{c4}'), '\u{c4}');
    assert_eq!(fold_all(&v("HeLLo \u{c4}1!")), v("hello \u{c4}1!"));
}

#[test]
fn find_gives_the_first_position() {
    assert_eq!(find(&v("abcabc"), &v("bc")), Some(1));
    assert_eq!(find(&v("abcabc"), &v("abc")), Some(0));
    assert_eq!(find(&v("abcabc"), &v("c")), Some(2));
    assert_eq!(find(&v("aab"), &v("ab")), Some(1));
    assert_eq!(find(&v("abc"), &v("abc")), Some(0));
    assert_eq!(find(&v("abc"), &v("abcd")), None);
    assert_eq!(find(&v("abc"), &v("d")), None);
    assert_eq!(find(&v("abc"), &v("")), Some(0));
    assert_eq!(find(&v(""), &v("")), Some(0));
    assert_eq!(find(&v(""), &v("a")), None);
    assert_eq!(find(&v("\u{e4}\u{f6}x"), &v("x")), Some(2));
}

#[test]
fn matching_at_a_position() {
    assert!(matches_at(&v("abc"), &v("bc"), 1));
    assert!(!matches_at(&v("abc"), &v("bc"), 0));
    assert!(!matches_at(&v("abc"), &v("bc"), 2));
    assert!(matches_at(&v("abc"), &v(""), 3));
    assert!(!matches_at(&v("abc"), &v(""), 4));
    assert!(!matches_at(&v("abc"), &v("abcd"), 0));
    assert!(!matches_at(&v("abc"), &v("c"), usize::MAX));
}

#[test]
fn containment_with_and_without_case() {
    assert!(contains(&v("The Budget"), &v("Budget")));
    assert!(!contains(&v("The Budget"), &v("budget")));
    assert!(contains_folded(&v("The Budget"), &v("bUDGET")));
    assert!(!contains_folded(&v("The Budget"), &v("budgets")));
    assert!(!contains_folded(&v("\u{c4}rger"), &v("\u{e4}rger")));
    assert!(contains_folded(&v("anything"), &v("")));
}

#[test]
fn texts_are_ordered_as_their_bytes_are() {
    let texts = [
        "", "0", "2024-01-01", "2024-01-02", "2024-1-1", "A", "Z", "a", "ab", "b", "z", "\u{7f}",
        "\u{e4}", "\u{4e2d}", "\u{1f600}",
    ];
    for a in texts {
        for b in texts {
            assert_eq!(comes_before(&v(a), &v(b)), a < b, "{:?} {:?}", a, b);
            assert_eq!(comes_before(&v(a), &v(b)), a.as_bytes() < b.as_bytes());
        }
    }
}

#[test]
fn same_text_compares_characters() {
    assert!(same_text("", ""));
    assert!(same_text("abc", "abc"));
    assert!(!same_text("abc", "abd"));
    assert!(!same_text("abc", "ab"));
    assert!(!same_text("abc", "ABC"));
}

#[test]
fn head_takes_characters() {
    assert_eq!(head("hello", 2), "he");
    assert_eq!(head("hello", 0), "");
    assert_eq!(head("hello", 5), "hello");
    assert_eq!(head("hello", 99), "hello");
    assert_eq!(head("\u{e4}\u{f6}\u{fc}", 2), "\u{e4}\u{f6}");
}

#[test]
fn decimal_numerals() {
    assert_eq!(decimal_string(0), "0");
    assert_eq!(decimal_string(7), "7");
    assert_eq!(decimal_string(10), "10");
    assert_eq!(decimal_string(1203), "1203");
    assert_eq!(decimal_string(u64::MAX), "18446744073709551615");
    assert_eq!(two_digit_string(0), "00");
    assert_eq!(two_digit_string(9), "09");
    assert_eq!(two_digit_string(10), "10");
    assert_eq!(two_digit_string(28), "28");
    assert_eq!(two_digit_string(123), "123");
}

#[test]
fn like_patterns_escape_wildcards() {
    assert_eq!(like_pattern(""), "%%");
    assert_eq!(like_pattern("budget"), "%budget%");
    assert_eq!(like_pattern("100%"), "%100\\%%");
    assert_eq!(like_pattern("a_b"), "%a\\_b%");
    assert_eq!(like_pattern("a\\b"), "%a\\\\b%");
    assert_eq!(like_pattern("%_\\"), "%\\%\\_\\\\%");
}

#[test]
fn limit_clauses() {
    assert_eq!(limit_clause(None), "");
    assert_eq!(limit_clause(Some(0)), " LIMIT 0");
    assert_eq!(limit_clause(Some(50)), " LIMIT 50");
    assert_eq!(limit_clause(Some(i64::MAX as usize)), " LIMIT 9223372036854775807");
    assert_eq!(limit_clause(Some(i64::MAX as usize + 1)), "");
    assert_eq!(limit_clause(Some(usize::MAX)), "");
}

#[test]
fn save_plan_writes_header_first_then_messages_in_order() {
    let c = ConversationRecord {
        id: "c1".to_string(),
        title: "T".to_string(),
        created_at: "2024-01-01T00:00:00Z".to_string(),
        updated_at: "2024-01-02T00:00:00Z".to_string(),
        model_used: "m".to_string(),
        message_count: 2,
    };
    let m1 = MessageRecord {
        id: "m1".to_string(),
        conversation_id: "c1".to_string(),
        role: "user".to_string(),
        content: "hi".to_string(),
        timestamp: "2024-01-01T00:00:01Z".to_string(),
        tokens_used: None,
    };
    let m2 = MessageRecord {
        id: "m2".to_string(),
        conversation_id: "c1".to_string(),
        role: "assistant".to_string(),
        content: "hello".to_string(),
        timestamp: "2024-01-01T00:00:02Z".to_string(),
        tokens_used: Some(42),
    };
    let plan = save_plan(&c, &vec![m1.clone(), m2.clone()]);
    assert_eq!(plan.len(), 3);
    assert_eq!(plan[0], conversation_upsert(&c));
    assert_eq!(plan[1], message_upsert(&m1));
    assert_eq!(plan[2], message_upsert(&m2));
    assert_eq!(
        plan[0].sql,
        "INSERT OR REPLACE INTO conversations (id, title, created_at, updated_at, model_used, message_count) VALUES (?1, ?2, ?3, ?4, ?5, ?6)"
    );
    assert_eq!(
        plan[0].params,
        vec![
            Some("c1".to_string()),
            Some("T".to_string()),
            Some("2024-01-01T00:00:00Z".to_string()),
            Some("2024-01-02T00:00:00Z".to_string()),
            Some("m".to_string()),
            Some("2".to_string()),
        ]
    );
    assert_eq!(
        plan[1].sql,
        "INSERT OR REPLACE INTO messages (id, conversation_id, role, content, timestamp, tokens_used) VALUES (?1, ?2, ?3, ?4, ?5, ?6)"
    );
    assert_eq!(plan[1].params[5], None);
    assert_eq!(plan[2].params[5], Some("42".to_string()));
    assert_eq!(plan[2].params[2], Some("assistant".to_string()));
    assert_eq!(save_plan(&c, &vec![]).len(), 1);
}
