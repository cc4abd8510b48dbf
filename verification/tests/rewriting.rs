use goofus_gagger::tables::{cow_gagmode, empty_gagmode, gag_gagmode};
use goofus_gagger::{
    format_gagged, gag, let_me_out, split_prefix, struggle, struggle_lines, to_gagged_message,
    GagMode, GagModeError, GagModeName, WeightError, GAGMODE_STATES,
};

/// A chain in which every draw has one outcome: it starts in state 1 and
/// goes 1, 2, 0, 1, 2, 0 through a word.
fn round_chain(chars: [char; 3]) -> GagMode {
    let mut mode = empty_gagmode();
    mode.chars[0] = chars[0];
    mode.chars[1] = chars[1];
    mode.chars[2] = chars[2];
    mode.first[1] = 1;
    mode.next[1][2] = 1;
    mode.next[2][0] = 1;
    mode.next[0][1] = 1;
    mode
}

#[test]
fn a_chain_without_choice_rewrites_in_one_way() {
    let mode = round_chain(['a', 'b', 'c']);
    assert_eq!(mode.rewrite("Hello, World"), Ok(String::from("Bcabc, Bcabc")));
    assert_eq!(mode.rewrite(""), Ok(String::new()));
    assert_eq!(mode.rewrite("123 !?"), Ok(String::from("123 !?")));
    assert_eq!(mode.rewrite("aB1cD"), Ok(String::from("bC1bC")));
}

#[test]
fn letters_of_every_script_are_rewritten_and_keep_their_case() {
    let mode = round_chain(['a', 'ß', 'c']);
    // An upper-case letter takes the upper-case form of the state's
    // character, which may be more than one character.
    assert_eq!(mode.rewrite("Éé"), Ok(String::from("SSc")));
    assert_eq!(mode.rewrite("ж"), Ok(String::from("ß")));
    // A letter without case counts as lower case.
    assert_eq!(mode.rewrite("中"), Ok(String::from("ß")));
    let upper = round_chain(['A', 'B', 'C']);
    assert_eq!(upper.rewrite("ab CD"), Ok(String::from("bc BC")));
}

#[test]
fn a_chain_without_weights_cannot_rewrite() {
    let mode = empty_gagmode();
    assert_eq!(
        mode.rewrite("hello"),
        Err(GagModeError::WeightError(WeightError::InsufficientNonZero))
    );
    assert_eq!(
        mode.rewrite(""),
        Err(GagModeError::WeightError(WeightError::InsufficientNonZero))
    );
}

#[test]
fn weights_that_sum_to_more_than_255_cannot_be_drawn_from() {
    let mut mode = empty_gagmode();
    mode.first[0] = 200;
    mode.first[1] = 56;
    assert_eq!(mode.rewrite("x"), Err(GagModeError::WeightError(WeightError::Overflow)));
    mode.first[1] = 55;
    // The first state can be drawn now, the next one cannot.
    assert_eq!(mode.rewrite(""), Ok(String::new()));
    assert_eq!(mode.rewrite("1"), Ok(String::from("1")));
    assert_eq!(
        mode.rewrite("x"),
        Err(GagModeError::WeightError(WeightError::InsufficientNonZero))
    );
}

#[test]
fn a_state_without_weight_is_never_drawn() {
    // A cow says m, then m or o, and after the first o only o.
    let mode = cow_gagmode();
    for _ in 0..200 {
        let out = mode.rewrite("abcdefghijkl").expect("a cow can always moo");
        assert_eq!(out.chars().count(), 12);
        assert!(out.starts_with('m'), "{out}");
        let tail = out.trim_start_matches('m');
        assert!(tail.chars().all(|c| c == 'o'), "{out}");
    }
}

#[test]
fn every_mode_rewrites_letters_and_keeps_the_rest() {
    for index in 0..GagModeName::COUNT {
        let mode = GagModeName::from_index(index).expect("a mode");
        let chain = mode.get();
        for _ in 0..20 {
            let out = chain.rewrite("Hi there, 42 times!").expect("the chain of a mode samples");
            let chars: Vec<char> = out.chars().collect();
            assert_eq!(chars.len(), 19, "{out}");
            assert_eq!(chars[2], ' ');
            assert_eq!(chars[8], ',');
            assert_eq!(&out[9..13], " 42 ");
            assert_eq!(chars[18], '!');
            assert!(chars[0].is_uppercase() || !chars[0].is_alphabetic(), "{out}");
            assert!(chain.chars.contains(&chars[1]), "{out}");
        }
    }
    assert_eq!(GagModeName::Sock.get(), gag_gagmode());
    assert_eq!(GagModeName::Puppy.get(), GagModeName::Dog.get());
    assert_eq!(GAGMODE_STATES, 16);
}

#[test]
fn the_plain_gag_turns_ascii_letters_into_h_m_and_f() {
    for _ in 0..50 {
        let out = gag("Hello, Wörld! 123");
        let chars: Vec<char> = out.chars().collect();
        let text: Vec<char> = "Hello, Wörld! 123".chars().collect();
        assert_eq!(chars.len(), text.len());
        for (c, o) in text.iter().zip(chars.iter()) {
            if c.is_ascii_uppercase() {
                assert!("HMF".contains(*o), "{out}");
            } else if c.is_ascii_lowercase() {
                assert!("hmf".contains(*o), "{out}");
            } else {
                assert_eq!(c, o);
            }
        }
    }
    assert_eq!(gag(""), "");
    assert_eq!(gag("12 ö!"), "12 ö!");
}

#[test]
fn a_gagged_message_names_its_author_and_mode() {
    for _ in 0..20 {
        let out = to_gagged_message("ab", GagModeName::Cow, "<@7>");
        assert!(out == "<@7> (🐮): mm" || out == "<@7> (🐮): mo", "{out}");
    }
    assert_eq!(to_gagged_message("", GagModeName::Bee, "x"), "x (🐝): ");
    assert_eq!(to_gagged_message("1 + 1", GagModeName::Gag, "<@7>"), "<@7> (🔴): 1 + 1");
}

#[test]
fn a_heading_mark_is_kept_in_front() {
    assert_eq!(to_gagged_message("# 12", GagModeName::Gag, "<@7>"), "# <@7> (🔴): 12");
    assert_eq!(to_gagged_message("## 12", GagModeName::Gag, "<@7>"), "## <@7> (🔴): 12");
    assert_eq!(to_gagged_message("### 12", GagModeName::Gag, "<@7>"), "### <@7> (🔴): 12");
    assert_eq!(to_gagged_message("-# 12", GagModeName::Gag, "<@7>"), "-# <@7> (🔴): 12");
    assert_eq!(to_gagged_message("# ", GagModeName::Gag, "<@7>"), "# <@7> (🔴): ");
    // No mark: four signs, no space, or not at the start.
    assert_eq!(to_gagged_message("#### 12", GagModeName::Gag, "<@7>"), "<@7> (🔴): #### 12");
    assert_eq!(to_gagged_message("#12", GagModeName::Gag, "<@7>"), "<@7> (🔴): #12");
    assert_eq!(to_gagged_message(" # 12", GagModeName::Gag, "<@7>"), "<@7> (🔴):  # 12");
    assert_eq!(to_gagged_message("- # 12", GagModeName::Gag, "<@7>"), "<@7> (🔴): - # 12");
    assert_eq!(to_gagged_message("1\n# 2", GagModeName::Gag, "<@7>"), "<@7> (🔴): 1\n# 2");
}

#[test]
fn the_parts_of_a_gagged_message() {
    let (prefix, rest) = split_prefix("## héllo", Some((0, String::from("## "))));
    assert_eq!(prefix, "## ");
    assert_eq!(rest, "héllo");
    let (prefix, rest) = split_prefix("## héllo", None);
    assert_eq!(prefix, "");
    assert_eq!(rest, "## héllo");
    let (prefix, rest) = split_prefix("a# b", Some((1, String::from("# "))));
    assert_eq!(prefix, "");
    assert_eq!(rest, "a# b");
    assert_eq!(format_gagged("# ", "<@1>", GagModeName::Fox, "aeh"), "# <@1> (🦊): aeh");
    assert_eq!(format_gagged("", "", GagModeName::Sock, ""), " (🧦): ");
}

#[test]
fn struggling_says_one_of_four_lines() {
    let lines = struggle_lines("<@9>");
    assert_eq!(
        lines,
        vec![
            "*<@9> struggled against the ropes*",
            "*<@9> uselessly struggled against the ropes*",
            "*<@9> squirms against the strength of the ropes*",
            "*<@9> is unable to get free*"
        ]
    );
    let mut seen = [false; 4];
    for _ in 0..400 {
        let said = struggle("<@9>");
        let place = lines.iter().position(|line| *line == said).expect("one of the lines");
        seen[place] = true;
    }
    assert!(seen.iter().all(|s| *s));
    assert_eq!(let_me_out("<@9>"), "*<@9> wants to be let out*");
}
