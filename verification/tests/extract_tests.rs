use akkurate::extract::extract_json;

#[test]
fn json_tagged_fence_is_stripped() {
    assert_eq!(extract_json("```json\n{\"a\":1}\n```"), "{\"a\":1}");
}

#[test]
fn plain_payload_is_returned_trimmed_only() {
    assert_eq!(extract_json("{\"a\":1}"), "{\"a\":1}");
    assert_eq!(extract_json("  {\"a\":1}\n"), "{\"a\":1}");
}

#[test]
fn bare_fence_is_stripped() {
    assert_eq!(extract_json("```\n[]\n```"), "[]");
}

#[test]
fn empty_and_blank_inputs_give_empty() {
    assert_eq!(extract_json(""), "");
    assert_eq!(extract_json("   \n\t  "), "");
    assert_eq!(extract_json("```"), "");
    assert_eq!(extract_json("```json"), "");
}

#[test]
fn repeated_markers_are_all_stripped() {
    assert_eq!(extract_json("```json```json{}"), "{}");
    assert_eq!(extract_json("```json{}``````"), "{}");
}

#[test]
fn trailing_fence_without_leading_one_stays() {
    assert_eq!(extract_json("{}```"), "{}```");
}

#[test]
fn stripping_twice_equals_stripping_once() {
    let cases = [
        "```json\n{\"a\":1}\n```",
        "{\"a\":1}",
        "```\n[]\n```",
        "  text  ",
        "",
        "```json\n  {\"k\": [1, 2]}  ```",
    ];
    for c in cases {
        let once = extract_json(c);
        assert_eq!(extract_json(&once), once);
    }
}

#[test]
fn inner_whitespace_then_marker_can_need_a_second_pass() {
    // An answer opening with two fence markers separated by a space leaves
    // a marker exposed after one pass, so a second pass still strips.
    let once = extract_json("``` ```json{}");
    assert_eq!(once, "```json{}");
    assert_eq!(extract_json(&once), "{}");
}
