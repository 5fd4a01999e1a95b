use petpet::query::{image_count_from_names, name_number, split_whitespace_words, QueryParams};
use petpet::template::TextData;
use petpet::text::substitute;

fn data(from: &str, to: &str, group: &str, list: Vec<&str>) -> TextData {
    TextData {
        from: from.to_owned(),
        to: to.to_owned(),
        group: group.to_owned(),
        text_list: list.into_iter().map(|s| s.to_owned()).collect(),
    }
}

#[test]
fn role_placeholders_are_replaced() {
    let d = data("Ada", "Grace", "the lab", vec![]);
    assert_eq!(substitute("$from pets $to in $group", &d), "Ada pets Grace in the lab");
}

#[test]
fn substitution_is_identity_without_placeholders() {
    let d = data("Ada", "Grace", "g", vec!["x"]);
    let text = "plain text, no markers at all";
    assert_eq!(substitute(text, &d), text);
}

#[test]
fn numbered_placeholder_picks_the_list_entry() {
    let d = data("f", "t", "g", vec!["first", "second"]);
    assert_eq!(substitute("a $txt1[d1] b $txt2[d2] c", &d), "a first b second c");
}

#[test]
fn numbered_placeholder_past_the_list_uses_its_default() {
    let d = data("f", "t", "g", vec!["only"]);
    assert_eq!(substitute("$txt2[fallback]", &d), "fallback");
    assert_eq!(substitute("$txt9[dflt] and $txt1[x]", &d), "dflt and only");
}

#[test]
fn huge_placeholder_numbers_fall_back_to_the_default() {
    let d = data("f", "t", "g", vec!["only"]);
    assert_eq!(substitute("$txt99999999999999999999999[big]", &d), "big");
}

#[test]
fn an_unclosed_placeholder_stays_as_it_is() {
    let d = data("f", "t", "g", vec!["x"]);
    assert_eq!(substitute("$txt1[no close", &d), "$txt1[no close");
    assert_eq!(substitute("$txt0[zero]", &d), "$txt0[zero]");
}

#[test]
fn replacement_is_left_to_right_and_once_per_occurrence() {
    let d = data("A", "B", "C", vec![]);
    assert_eq!(substitute("$from$from", &d), "AA");
}

#[test]
fn whitespace_splitting_drops_empty_pieces() {
    assert_eq!(split_whitespace_words("a b  c"), vec!["a", "b", "c"]);
    assert_eq!(split_whitespace_words("  lead and trail  "), vec!["lead", "and", "trail"]);
    assert_eq!(split_whitespace_words(""), Vec::<String>::new());
    assert_eq!(split_whitespace_words(" \t\n "), Vec::<String>::new());
}

#[test]
fn query_params_become_request_data() {
    let q = QueryParams {
        key: "petpet".to_owned(),
        from_avatar: Some("from-url".to_owned()),
        to_avatar: None,
        group_avatar: None,
        bot_avatar: None,
        from_name: "Ada".to_owned(),
        to_name: "Grace".to_owned(),
        group_name: "lab".to_owned(),
        text_list: "one two".to_owned(),
    };
    let d = q.to_data();
    assert_eq!(d.key, "petpet");
    assert_eq!(d.avatar.from.as_deref(), Some("from-url"));
    assert!(d.avatar.to.is_none());
    assert!(d.avatar.random.is_none());
    assert_eq!(d.text.from, "Ada");
    assert_eq!(d.text.text_list, vec!["one", "two"]);
}

#[test]
fn frame_file_names_parse_to_their_numbers() {
    assert_eq!(name_number("7.png"), Some(7));
    assert_eq!(name_number("0.png"), Some(0));
    assert_eq!(name_number("12.png.png"), Some(12));
    assert_eq!(name_number("cover.png"), None);
    assert_eq!(name_number(".png"), None);
    assert_eq!(name_number("00099.png"), Some(99));
}

#[test]
fn frame_counting_stops_at_the_first_gap() {
    let names: Vec<String> = vec!["0.png", "1.png", "2.png", "4.png"]
        .into_iter()
        .map(|s| s.to_owned())
        .collect();
    assert_eq!(image_count_from_names(&names), 3);
    let with_noise: Vec<String> = vec!["readme.txt", "0.png", "1.png"]
        .into_iter()
        .map(|s| s.to_owned())
        .collect();
    assert_eq!(image_count_from_names(&with_noise), 2);
    assert_eq!(image_count_from_names(&Vec::new()), 0);
}

#[test]
fn frame_counting_ignores_the_listing_order() {
    let names: Vec<String> = vec!["2.png", "0.png", "1.png"]
        .into_iter()
        .map(|s| s.to_owned())
        .collect();
    assert_eq!(image_count_from_names(&names), 3);
    let reversed: Vec<String> = vec!["1.png", "0.png"]
        .into_iter()
        .map(|s| s.to_owned())
        .collect();
    assert_eq!(image_count_from_names(&reversed), 2);
}
