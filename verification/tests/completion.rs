use codecrafters_shell::auto_complete::auto_complete_helper::{
    candidates, compare, has_prefix, longest_common_prefix, AutoCompleteHelper, Completion, Order,
};

fn words(items: &[&str]) -> Vec<String> {
    items.iter().map(|s| s.to_string()).collect()
}

fn chars(s: &str) -> Vec<char> {
    s.chars().collect()
}

#[test]
fn candidates_are_sorted_and_without_repeats() {
    let commands = words(&["echo", "exit", "ls", "env", "echo", "each", "cat"]);
    assert_eq!(candidates(&commands, "e"), words(&["each", "echo", "env", "exit"]));
    assert_eq!(candidates(&commands, "ec"), words(&["echo"]));
    assert_eq!(candidates(&commands, "x"), Vec::<String>::new());
    assert_eq!(candidates(&commands, ""), words(&["cat", "each", "echo", "env", "exit", "ls"]));
    assert_eq!(candidates(&Vec::new(), "e"), Vec::<String>::new());
}

#[test]
fn candidates_agree_with_the_standard_sort() {
    let commands = words(&["b", "ab", "a", "", "abc", "B", "é", "e", "zz", "ab", "a b", "😀", "z", "ａ"]);
    for line in ["", "a", "ab", "z", "é", "q"] {
        let mut expected: Vec<String> =
            commands.iter().filter(|c| c.starts_with(line)).cloned().collect();
        expected.sort();
        expected.dedup();
        assert_eq!(candidates(&commands, line), expected, "for {:?}", line);
    }
}

#[test]
fn compare_follows_the_order_of_strings() {
    let samples = ["", "a", "ab", "b", "B", "é", "😀", "ａ", "abc", "ab\u{0}"];
    for a in samples {
        for b in samples {
            let expected = if a < b {
                Order::Before
            } else if a == b {
                Order::Same
            } else {
                Order::After
            };
            assert_eq!(compare(&chars(a), &chars(b)), expected, "for {:?} and {:?}", a, b);
        }
    }
}

#[test]
fn has_prefix_follows_starts_with() {
    for (s, p) in [("echo", "ec"), ("echo", ""), ("echo", "echo"), ("ec", "echo"), ("", ""), ("a", "b")] {
        assert_eq!(has_prefix(&chars(s), &chars(p)), s.starts_with(p));
    }
}

#[test]
fn longest_common_prefix_is_what_all_words_share() {
    assert_eq!(
        longest_common_prefix(&words(&["xyz_foo", "xyz_foo_bar", "xyz_foo_baz"])),
        "xyz_foo"
    );
    assert_eq!(longest_common_prefix(&words(&["echo", "exit"])), "e");
    assert_eq!(longest_common_prefix(&words(&["abc"])), "abc");
    assert_eq!(longest_common_prefix(&words(&["abc", "xyz"])), "");
    assert_eq!(longest_common_prefix(&words(&["abc", ""])), "");
    assert_eq!(longest_common_prefix(&words(&["ab", "abc", "a"])), "a");
    assert_eq!(longest_common_prefix(&words(&["éa", "éb"])), "é");
    assert_eq!(longest_common_prefix(&[]), "");
}

#[test]
fn no_candidate_completes_nothing() {
    let mut helper = AutoCompleteHelper::new(words(&["echo", "exit"]));
    assert_eq!(helper.complete("x"), Completion::Nothing);
}

#[test]
fn single_candidate_completes_with_a_space() {
    let mut helper = AutoCompleteHelper::new(words(&["echo", "exit", "echo"]));
    assert_eq!(helper.complete("ec"), Completion::Replace("echo ".to_string()));
    assert_eq!(helper.complete("echo"), Completion::Replace("echo ".to_string()));
}

#[test]
fn several_candidates_complete_to_what_they_share() {
    let mut helper = AutoCompleteHelper::new(words(&["xyz_foo", "xyz_foo_bar", "xyz_foo_baz"]));
    assert_eq!(helper.complete("xyz_"), Completion::Replace("xyz_foo".to_string()));
}

#[test]
fn first_press_rings_and_second_lists() {
    let mut helper = AutoCompleteHelper::new(words(&["exit", "echo", "env"]));
    assert_eq!(helper.complete("e"), Completion::Bell);
    assert_eq!(helper.complete("e"), Completion::List("echo  env  exit".to_string()));
    assert_eq!(helper.complete("e"), Completion::Bell);
}

#[test]
fn press_on_another_line_starts_the_count_again() {
    let mut helper = AutoCompleteHelper::new(words(&["exit", "echo", "lsa", "lsb"]));
    assert_eq!(helper.complete("e"), Completion::Bell);
    assert_eq!(helper.complete("ls"), Completion::Bell);
    assert_eq!(helper.complete("e"), Completion::Bell);
    assert_eq!(helper.complete("e"), Completion::List("echo  exit".to_string()));
}

#[test]
fn completion_that_replaces_keeps_the_count() {
    let mut helper = AutoCompleteHelper::new(words(&["exit", "echo", "cat"]));
    assert_eq!(helper.complete("e"), Completion::Bell);
    assert_eq!(helper.complete("c"), Completion::Replace("cat ".to_string()));
    assert_eq!(helper.complete("zzz"), Completion::Nothing);
    assert_eq!(helper.complete("e"), Completion::List("echo  exit".to_string()));
}

#[test]
fn candidate_equal_to_the_line_with_a_longer_one_rings() {
    let mut helper = AutoCompleteHelper::new(words(&["ls", "lsblk"]));
    assert_eq!(helper.complete("ls"), Completion::Bell);
    assert_eq!(helper.complete("ls"), Completion::List("ls  lsblk".to_string()));
}
