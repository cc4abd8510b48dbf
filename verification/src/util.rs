//! What the commands share: lists of gag modes written with commas, and the
//! message that replaces a gagged one.

use vstd::prelude::*;
use vstd::std_specs::cmp::PartialEqSpec;
use vstd::string::*;
use crate::modes::{lemma_holds_all, GagModeName, GagModeSet};
use crate::trust::{Trust, TrustDiff};

verus! {

/// Whether `x` is the default of its type: the answer of `==` on `x` and a
/// value that `T::default()` gave.
pub fn is_default<T: Default + PartialEq>(x: &T) -> (r: bool)
    ensures
        exists|d: T| #[trigger]
            call_ensures(T::default, (), d) && (T::obeys_eq_spec() ==> r == x.eq_spec(&d)),
{
    let d = T::default();
    *x == d
}

/// The pieces of a text between its commas, in order. A text without a
/// comma is one piece; so is the empty text.
pub open spec fn split_commas(s: Seq<char>) -> Seq<Seq<char>>
    decreases s.len(),
{
    if s.len() == 0 {
        seq![Seq::<char>::empty()]
    } else {
        let before = split_commas(s.drop_last());
        if s.last() == ',' {
            before.push(Seq::<char>::empty())
        } else {
            before.drop_last().push(before.last().push(s.last()))
        }
    }
}

/// The modes that the pieces name, or the first piece that names none.
pub open spec fn parse_pieces(pieces: Seq<Seq<char>>) -> Result<Set<GagModeName>, Seq<char>>
    decreases pieces.len(),
{
    if pieces.len() == 0 {
        Ok(Set::<GagModeName>::empty())
    } else {
        match parse_pieces(pieces.drop_last()) {
            Err(bad) => Err(bad),
            Ok(modes) => match GagModeName::spec_from_name(pieces.last()) {
                Some(mode) => Ok(modes.insert(mode)),
                None => Err(pieces.last()),
            },
        }
    }
}

/// What a list of gag modes written with commas holds: no mode if there is
/// no list, and else the modes that its pieces name or the first piece that
/// names none.
pub open spec fn spec_parse_csv_gag_modes(modes: Option<Seq<char>>) -> Result<
    Set<GagModeName>,
    Seq<char>,
> {
    match modes {
        Some(text) => parse_pieces(split_commas(text)),
        None => Ok(Set::<GagModeName>::empty()),
    }
}

/// What has been read of a list when the piece that is being read began at
/// `start` and the reading stands at `at`.
spec fn reading(text: Seq<char>, start: int, at: int) -> bool {
    &&& 0 <= start <= at <= text.len()
    &&& split_commas(text.take(at)).len() >= 1
    &&& split_commas(text.take(at)).last() == text.subrange(start, at)
}

/// Reading goes on by one character.
proof fn lemma_reading_step(text: Seq<char>, start: int, at: int)
    requires
        reading(text, start, at),
        at < text.len(),
    ensures
        text[at] == ',' ==> reading(text, at + 1, at + 1) && split_commas(
            text.take(at + 1),
        ).drop_last() == split_commas(text.take(at)),
        text[at] != ',' ==> reading(text, start, at + 1) && split_commas(
            text.take(at + 1),
        ).drop_last() == split_commas(text.take(at)).drop_last(),
{
    let now = text.take(at + 1);
    assert(now.drop_last() =~= text.take(at));
    assert(now.last() == text[at]);
    let before = split_commas(text.take(at));
    if text[at] == ',' {
        assert(split_commas(now) == before.push(Seq::<char>::empty()));
        assert(split_commas(now).drop_last() =~= before);
        assert(text.subrange(at + 1, at + 1) =~= Seq::<char>::empty());
    } else {
        assert(split_commas(now) == before.drop_last().push(before.last().push(text[at])));
        assert(split_commas(now).drop_last() =~= before.drop_last());
        assert(text.subrange(start, at + 1) =~= text.subrange(start, at).push(text[at]));
    }
}

/// Parses a list of gag modes written with commas between them.
///
/// Without a list the answer is no mode. Each piece between two commas must
/// name a mode, as [`GagModeName::from_name`] reads it; the error is the
/// first piece that names none. The empty text is one empty piece, which
/// names none.
pub fn parse_csv_gag_modes<'a>(modes: Option<&'a str>) -> (r: Result<GagModeSet, &'a str>)
    ensures
        match spec_parse_csv_gag_modes(
            match modes {
                Some(text) => Some(text@),
                None => None,
            },
        ) {
            Ok(set) => r matches Ok(got) && got@ == set,
            Err(bad) => r matches Err(got) && got@ == bad,
        },
{
    let text = match modes {
        Some(text) => text,
        None => {
            return Ok(GagModeSet::new());
        },
    };
    let n = text.unicode_len();
    let mut set = GagModeSet::new();
    let mut bad: Option<&'a str> = None;
    let mut start: usize = 0;
    let mut at: usize = 0;
    proof {
        assert(text@.take(0) =~= Seq::<char>::empty());
        assert(text@.subrange(0, 0) =~= Seq::<char>::empty());
        assert(split_commas(text@.take(0)).drop_last() =~= Seq::<Seq<char>>::empty());
    }
    for c in it: text.chars()
        invariant
            it.seq() == text@,
            n == text@.len(),
            at == it.index(),
            reading(text@, start as int, at as int),
            match parse_pieces(split_commas(text@.take(at as int)).drop_last()) {
                Ok(modes) => bad is None && set@ == modes,
                Err(piece) => bad matches Some(got) && got@ == piece,
            },
    {
        assert(c == text@[at as int]);
        proof {
            lemma_reading_step(text@, start as int, at as int);
        }
        if c == ',' {
            let piece = text.substring_char(start, at);
            let ghost pieces = split_commas(text@.take(at as int));
            assert(pieces.drop_last().push(pieces.last()) =~= pieces);
            if bad.is_none() {
                match GagModeName::from_name(piece) {
                    Some(mode) => {
                        set.insert(mode);
                    },
                    None => {
                        bad = Some(piece);
                    },
                }
            }
            start = at + 1;
        }
        at = at + 1;
    }
    assert(text@.take(n as int) =~= text@);
    let piece = text.substring_char(start, n);
    let ghost pieces = split_commas(text@);
    assert(pieces.drop_last().push(pieces.last()) =~= pieces);
    match bad {
        Some(piece) => Err(piece),
        None => match GagModeName::from_name(piece) {
            Some(mode) => {
                set.insert(mode);
                Ok(set)
            },
            None => Err(piece),
        },
    }
}

/// The trust that the parameters of a command write: each permission that
/// is not given is not granted, and the modes are those of the list. The
/// error is the first piece of the list that names no mode.
pub open spec fn spec_parse_trust(
    gag: Option<bool>,
    ungag: Option<bool>,
    tie: Option<bool>,
    untie: Option<bool>,
    gag_modes: Option<Seq<char>>,
) -> Result<Trust, Seq<char>> {
    match spec_parse_csv_gag_modes(gag_modes) {
        Ok(modes) => Ok(
            Trust {
                gag: gag == Some(true),
                ungag: ungag == Some(true),
                tie: tie == Some(true),
                untie: untie == Some(true),
                gag_modes: GagModeSet::of(modes),
            },
        ),
        Err(bad) => Err(bad),
    }
}

/// The override that the parameters of a command write: the permissions as
/// they are given, and the modes of the two lists. The error is the first
/// piece that names no mode, of the list of modes to allow or else of the
/// list of modes to disallow.
pub open spec fn spec_parse_trust_diff(
    gag: Option<bool>,
    ungag: Option<bool>,
    tie: Option<bool>,
    untie: Option<bool>,
    allow_gag_modes: Option<Seq<char>>,
    disallow_gag_modes: Option<Seq<char>>,
) -> Result<TrustDiff, Seq<char>> {
    match spec_parse_csv_gag_modes(allow_gag_modes) {
        Ok(allow) => match spec_parse_csv_gag_modes(disallow_gag_modes) {
            Ok(disallow) => Ok(
                TrustDiff {
                    gag,
                    ungag,
                    tie,
                    untie,
                    allow_gag_modes: GagModeSet::of(allow),
                    disallow_gag_modes: GagModeSet::of(disallow),
                },
            ),
            Err(bad) => Err(bad),
        },
        Err(bad) => Err(bad),
    }
}

/// The view of a text that may be absent.
pub open spec fn text_view(text: Option<&str>) -> Option<Seq<char>> {
    match text {
        Some(text) => Some(text@),
        None => None,
    }
}

/// Reads the trust that the parameters of a command write.
pub fn parse_trust<'a>(
    gag: Option<bool>,
    ungag: Option<bool>,
    tie: Option<bool>,
    untie: Option<bool>,
    gag_modes: Option<&'a str>,
) -> (r: Result<Trust, &'a str>)
    ensures
        match spec_parse_trust(gag, ungag, tie, untie, text_view(gag_modes)) {
            Ok(trust) => r == Ok::<Trust, &str>(trust),
            Err(bad) => r matches Err(got) && got@ == bad,
        },
{
    match parse_csv_gag_modes(gag_modes) {
        Ok(modes) => {
            proof {
                lemma_holds_all(modes);
            }
            Ok(
                Trust {
                    gag: gag == Some(true),
                    ungag: ungag == Some(true),
                    tie: tie == Some(true),
                    untie: untie == Some(true),
                    gag_modes: modes,
                },
            )
        },
        Err(bad) => Err(bad),
    }
}

/// Reads the override that the parameters of a command write.
pub fn parse_trust_diff<'a>(
    gag: Option<bool>,
    ungag: Option<bool>,
    tie: Option<bool>,
    untie: Option<bool>,
    allow_gag_modes: Option<&'a str>,
    disallow_gag_modes: Option<&'a str>,
) -> (r: Result<TrustDiff, &'a str>)
    ensures
        match spec_parse_trust_diff(
            gag,
            ungag,
            tie,
            untie,
            text_view(allow_gag_modes),
            text_view(disallow_gag_modes),
        ) {
            Ok(diff) => r == Ok::<TrustDiff, &str>(diff),
            Err(bad) => r matches Err(got) && got@ == bad,
        },
{
    let allow = match parse_csv_gag_modes(allow_gag_modes) {
        Ok(modes) => modes,
        Err(bad) => {
            return Err(bad);
        },
    };
    let disallow = match parse_csv_gag_modes(disallow_gag_modes) {
        Ok(modes) => modes,
        Err(bad) => {
            return Err(bad);
        },
    };
    proof {
        lemma_holds_all(allow);
        lemma_holds_all(disallow);
    }
    Ok(TrustDiff { gag, ungag, tie, untie, allow_gag_modes: allow, disallow_gag_modes: disallow })
}

/// The modes that some piece names.
pub open spec fn named(pieces: Seq<Seq<char>>) -> Set<GagModeName> {
    Set::new(
        |mode: GagModeName|
            exists|i: int|
                0 <= i < pieces.len() && GagModeName::spec_from_name(#[trigger] pieces[i]) == Some(
                    mode,
                ),
    )
}

/// Whether the name of `mode` goes on from `begun`: it begins with it and is
/// longer.
pub open spec fn goes_on(mode: GagModeName, begun: Seq<char>) -> bool {
    begun.is_prefix_of(mode.spec_name()) && mode.spec_name() != begun
}

/// `lead` followed by the name of each mode of `keep` among the first `upto`
/// modes, in the order in which the modes are declared.
pub open spec fn listed(upto: int, keep: Set<GagModeName>, lead: Seq<char>) -> Seq<Seq<char>>
    decreases upto,
{
    if upto <= 0 {
        Seq::<Seq<char>>::empty()
    } else {
        let before = listed(upto - 1, keep, lead);
        match GagModeName::spec_from_index(upto - 1) {
            Some(mode) => if keep.contains(mode) {
                before.push(lead + mode.spec_name())
            } else {
                before
            },
            None => before,
        }
    }
}

/// The ways to go on writing a list of gag modes, of which `value` has been
/// written.
///
/// Only modes that no piece of `value` names are offered. After a comma, and
/// at the very start, each of them is offered, written behind `value`. Else
/// the modes whose name goes on from the last piece are offered, written in
/// its place; and if there is none, each mode, written behind `value` and a
/// comma.
pub open spec fn suggestions(value: Seq<char>) -> Seq<Seq<char>> {
    let pieces = split_commas(value);
    let free = Set::new(|mode: GagModeName| !named(pieces).contains(mode));
    if value.len() == 0 || value.last() == ',' {
        listed(GagModeName::COUNT as int, free, value)
    } else {
        let last = pieces.last();
        let fitting = Set::new(|mode: GagModeName| free.contains(mode) && goes_on(mode, last));
        let narrowed = listed(
            GagModeName::COUNT as int,
            fitting,
            value.take(value.len() - last.len()),
        );
        if narrowed.len() == 0 {
            listed(GagModeName::COUNT as int, free, value.push(','))
        } else {
            narrowed
        }
    }
}

/// Whether `a` begins with `b`.
pub fn starts_with(a: &str, b: &str) -> (r: bool)
    ensures
        r == b@.is_prefix_of(a@),
{
    let n = b.unicode_len();
    if a.unicode_len() < n {
        return false;
    }
    let head = a.substring_char(0, n);
    let r = crate::text::str_eq(head, b);
    proof {
        if r {
            assert(b@ =~= a@.subrange(0, n as int));
        } else {
            if b@.is_prefix_of(a@) {
                assert(a@.subrange(0, n as int) =~= b@);
            }
        }
    }
    r
}

/// `lead` followed by the name of each mode of `keep`, in the order in which
/// the modes are declared.
fn list_modes(keep: &GagModeSet, lead: &str) -> (r: Vec<String>)
    ensures
        r.deep_view() == listed(GagModeName::COUNT as int, keep@, lead@),
{
    let mut out: Vec<String> = Vec::new();
    let mut i: usize = 0;
    assert(out.deep_view() =~= listed(0, keep@, lead@));
    while i < GagModeName::COUNT
        invariant
            i <= GagModeName::COUNT,
            out.deep_view() == listed(i as int, keep@, lead@),
        decreases GagModeName::COUNT - i,
    {
        let ghost before = out.deep_view();
        match GagModeName::from_index(i) {
            Some(mode) => {
                if keep.contains(mode) {
                    let mut line = String::from_str(lead);
                    line.append(mode.name());
                    out.push(line);
                    assert(out.deep_view() =~= before.push(lead@ + mode.spec_name()));
                }
            },
            None => {},
        }
        i = i + 1;
    }
    out
}

/// The ways to go on writing a list of gag modes, of which `value` has been
/// written, in the order in which the modes are declared.
pub fn csv_gag_mode_name_autocomplete(value: &str) -> (r: Vec<String>)
    ensures
        r.deep_view() == suggestions(value@),
{
    let n = value.unicode_len();
    let mut free = GagModeName::all();
    let mut start: usize = 0;
    let mut at: usize = 0;
    let mut after_comma = false;
    proof {
        assert(value@.take(0) =~= Seq::<char>::empty());
        assert(value@.subrange(0, 0) =~= Seq::<char>::empty());
        assert(split_commas(value@.take(0)).drop_last() =~= Seq::<Seq<char>>::empty());
        assert(free@ =~= Set::new(
            |mode: GagModeName| !named(split_commas(value@.take(0)).drop_last()).contains(mode),
        ));
    }
    for c in it: value.chars()
        invariant
            it.seq() == value@,
            n == value@.len(),
            at == it.index(),
            reading(value@, start as int, at as int),
            after_comma == (at > 0 && value@[at - 1] == ','),
            free@ == Set::new(
                |mode: GagModeName|
                    !named(split_commas(value@.take(at as int)).drop_last()).contains(mode),
            ),
    {
        assert(c == value@[at as int]);
        proof {
            lemma_reading_step(value@, start as int, at as int);
        }
        if c == ',' {
            let piece = value.substring_char(start, at);
            let ghost pieces = split_commas(value@.take(at as int));
            let ghost old_free = free@;
            match GagModeName::from_name(piece) {
                Some(mode) => {
                    free.remove(mode);
                },
                None => {},
            }
            proof {
                lemma_named_push(pieces.drop_last(), pieces.last());
                assert(pieces.drop_last().push(pieces.last()) =~= pieces);
                assert(free@ =~= Set::new(
                    |mode: GagModeName| !named(pieces).contains(mode),
                ));
            }
            start = at + 1;
        }
        after_comma = c == ',';
        at = at + 1;
    }
    assert(value@.take(n as int) =~= value@);
    let last = value.substring_char(start, n);
    let ghost pieces = split_commas(value@);
    let mut open_modes = free;
    match GagModeName::from_name(last) {
        Some(mode) => {
            open_modes.remove(mode);
        },
        None => {},
    }
    proof {
        lemma_named_push(pieces.drop_last(), pieces.last());
        assert(pieces.drop_last().push(pieces.last()) =~= pieces);
        assert(open_modes@ =~= Set::new(|mode: GagModeName| !named(pieces).contains(mode)));
    }
    if n == 0 || after_comma {
        list_modes(&open_modes, value)
    } else {
        let not_last = value.substring_char(0, start);
        let mut fitting = GagModeSet::new();
        let mut i: usize = 0;
        while i < GagModeName::COUNT
            invariant
                i <= GagModeName::COUNT,
                last@ == pieces.last(),
                forall|mode: GagModeName|
                    fitting@.contains(mode) <==> mode.spec_index() < i && open_modes@.contains(
                        mode,
                    ) && goes_on(mode, last@),
            decreases GagModeName::COUNT - i,
        {
            match GagModeName::from_index(i) {
                Some(mode) => {
                    if open_modes.contains(mode) && starts_with(mode.name(), last)
                        && !crate::text::str_eq(mode.name(), last) {
                        fitting.insert(mode);
                    }
                },
                None => {},
            }
            i = i + 1;
        }
        proof {
            assert(fitting@ =~= Set::new(
                |mode: GagModeName| open_modes@.contains(mode) && goes_on(mode, last@),
            ));
            assert(not_last@ =~= value@.take(value@.len() - last@.len()));
        }
        let narrowed = list_modes(&fitting, not_last);
        if narrowed.len() == 0 {
            let mut lead = String::from_str(value);
            lead.append(",");
            proof {
                reveal_strlit(",");
                assert(lead@ =~= value@.push(','));
            }
            list_modes(&open_modes, lead.as_str())
        } else {
            narrowed
        }
    }
}

/// The modes that pieces name, one piece more.
proof fn lemma_named_push(pieces: Seq<Seq<char>>, piece: Seq<char>)
    ensures
        named(pieces.push(piece)) == match GagModeName::spec_from_name(piece) {
            Some(mode) => named(pieces).insert(mode),
            None => named(pieces),
        },
{
    let more = pieces.push(piece);
    let want = match GagModeName::spec_from_name(piece) {
        Some(mode) => named(pieces).insert(mode),
        None => named(pieces),
    };
    assert forall|mode: GagModeName| named(more).contains(mode) <==> want.contains(mode) by {
        if named(more).contains(mode) {
            let i = choose|i: int|
                0 <= i < more.len() && GagModeName::spec_from_name(#[trigger] more[i]) == Some(
                    mode,
                );
            if i < pieces.len() {
                assert(pieces[i] == more[i]);
            }
        }
        if want.contains(mode) {
            if named(pieces).contains(mode) {
                let i = choose|i: int|
                    0 <= i < pieces.len() && GagModeName::spec_from_name(#[trigger] pieces[i])
                        == Some(mode);
                assert(more[i] == pieces[i]);
            } else {
                assert(more[pieces.len() as int] == piece);
            }
        }
    }
    assert(named(more) =~= want);
}

/// The pattern of what a message may begin with and keeps when it is
/// gagged: the mark of small print or of a heading, with the space after it.
pub const PREFIXES: &'static str = "^(-#|#{1,3}) ";

/// The first match of a regular expression in a text, as the `regex` crate
/// finds it: the offset of its first byte in the text, and the text of the
/// match. `None` if there is no match or the pattern is no regular
/// expression.
pub uninterp spec fn regex_find(pattern: Seq<char>, text: Seq<char>) -> Option<(usize, Seq<char>)>;

/// What a found match is as plain values.
pub open spec fn found_view(found: Option<(usize, String)>) -> Option<(usize, Seq<char>)> {
    match found {
        Some((start, matched)) => Some((start, matched@)),
        None => None,
    }
}

/// Compiles `pattern` with `regex::Regex::new` and searches `text` with
/// `Regex::find`.
///
/// The answer is a function of the two texts. A match is a piece of the text
/// that was searched, so one that starts at offset 0 is a beginning of it;
/// nothing else is claimed of what matches.
#[verifier::external_body]
pub(crate) fn find_match(pattern: &str, text: &str) -> (r: Option<(usize, String)>)
    ensures
        found_view(r) == regex_find(pattern@, text@),
        r matches Some((start, matched)) ==> start == 0 ==> matched@.is_prefix_of(text@),
{
    match regex::Regex::new(pattern) {
        Ok(re) => match re.find(text) {
            Some(m) => Some((m.start(), m.as_str().to_string())),
            None => None,
        },
        Err(_) => None,
    }
}

/// What a gagged message keeps of its beginning: the match, if it is at the
/// very start of the message, and else nothing.
pub open spec fn kept_prefix(found: Option<(usize, Seq<char>)>) -> Seq<char> {
    match found {
        Some((start, matched)) => if start == 0 {
            matched
        } else {
            Seq::<char>::empty()
        },
        None => Seq::<char>::empty(),
    }
}

/// Splits a message into what it keeps of its beginning and the rest, given
/// what was found at its beginning.
pub fn split_prefix<'a>(text: &'a str, found: Option<(usize, String)>) -> (r: (String, &'a str))
    requires
        kept_prefix(found_view(found)).is_prefix_of(text@),
    ensures
        r.0@ == kept_prefix(found_view(found)),
        r.1@ == text@.skip(kept_prefix(found_view(found)).len() as int),
        r.0@ + r.1@ == text@,
{
    let prefix = match found {
        Some((start, matched)) => if start == 0 {
            matched
        } else {
            String::new()
        },
        None => String::new(),
    };
    let len = prefix.as_str().unicode_len();
    let rest = text.substring_char(len, text.unicode_len());
    proof {
        assert(rest@ =~= text@.skip(len as int));
        assert(prefix@ + rest@ =~= text@);
    }
    (prefix, rest)
}

/// The message that replaces a gagged one, of its parts.
pub open spec fn gagged_message(
    prefix: Seq<char>,
    author: Seq<char>,
    mode: GagModeName,
    rewritten: Seq<char>,
) -> Seq<char> {
    prefix + author + " ("@ + mode.spec_icon() + "): "@ + rewritten
}

/// Puts the message that replaces a gagged one together: what was kept of
/// the beginning, the author, the icon of the mode in brackets, a colon and
/// the rewritten text.
pub fn format_gagged(prefix: &str, author: &str, mode: GagModeName, rewritten: &str) -> (r: String)
    ensures
        r@ == gagged_message(prefix@, author@, mode, rewritten@),
{
    let mut out = String::from_str(prefix);
    out.append(author);
    out.append(" (");
    out.append(mode.icon());
    out.append("): ");
    out.append(rewritten);
    out
}

/// What a message keeps of its beginning when it is gagged.
pub open spec fn message_prefix(text: Seq<char>) -> Seq<char> {
    kept_prefix(regex_find(PREFIXES@, text))
}

/// What of a message is rewritten when it is gagged.
pub open spec fn message_rest(text: Seq<char>) -> Seq<char> {
    text.skip(message_prefix(text).len() as int)
}

/// Gags a message and says who wrote it.
///
/// A mark of small print or of a heading at the beginning of the message is
/// kept in front. Behind it stand the author, the icon of the mode, and the
/// rest of the message as the chain of the mode rewrites it.
pub fn to_gagged_message(text: &str, mode: GagModeName, author: &str) -> (r: String)
    ensures
        exists|states: Seq<int>| #[trigger]
            mode.spec_get().is_walk(message_rest(text@), states) && r@ == gagged_message(
                message_prefix(text@),
                author@,
                mode,
                mode.spec_get().rendering(message_rest(text@), states),
            ),
{
    let found = find_match(PREFIXES, text);
    let (prefix, rest) = split_prefix(text, found);
    let chain = mode.get();
    let rewritten = match chain.rewrite(rest) {
        Ok(rewritten) => rewritten,
        Err(_) => unreached(),
    };
    let out = format_gagged(prefix.as_str(), author, mode, rewritten.as_str());
    proof {
        let states = choose|states: Seq<int>|
            chain.is_walk(rest@, states) && rewritten@ == chain.rendering(rest@, states);
        assert(prefix@ == message_prefix(text@));
        assert(rest@ == message_rest(text@));
        assert(mode.spec_get().is_walk(message_rest(text@), states) && out@ == gagged_message(
            message_prefix(text@),
            author@,
            mode,
            mode.spec_get().rendering(message_rest(text@), states),
        ));
    }
    out
}

} // verus!
