use crate::text::{chars_of, string_of};
use vstd::prelude::*;

verus! {

/// Whether `s` begins with `p`.
pub open spec fn starts_with(s: Seq<char>, p: Seq<char>) -> bool {
    p.len() <= s.len() && s.take(p.len() as int) == p
}

/// `s` after the prefix `p`, if `s` begins with it.
pub open spec fn tag(s: Seq<char>, p: Seq<char>) -> Option<Seq<char>> {
    if starts_with(s, p) {
        Some(s.skip(p.len() as int))
    } else {
        None
    }
}

/// The first index from `k` on at which `p` occurs in `s`.
pub open spec fn find_from(s: Seq<char>, p: Seq<char>, k: int) -> Option<int>
    decreases s.len() + 1 - k,
{
    if k < 0 || k + p.len() > s.len() {
        None
    } else if starts_with(s.skip(k), p) {
        Some(k)
    } else {
        find_from(s, p, k + 1)
    }
}

/// An occurrence that `find_from` reports lies at or after `k`, inside `s`, and is one.
pub proof fn lemma_find_from_found(s: Seq<char>, p: Seq<char>, k: int)
    requires
        find_from(s, p, k) is Some,
    ensures
        k <= find_from(s, p, k)->0,
        find_from(s, p, k)->0 + p.len() <= s.len(),
        starts_with(s.skip(find_from(s, p, k)->0), p),
    decreases s.len() + 1 - k,
{
    if !(k < 0 || k + p.len() > s.len()) && !starts_with(s.skip(k), p) {
        lemma_find_from_found(s, p, k + 1);
    }
}

/// `s` split before the first occurrence of `p`: what follows (from `p` on),
/// and what precedes it.
pub open spec fn take_until(s: Seq<char>, p: Seq<char>) -> Option<(Seq<char>, Seq<char>)> {
    match find_from(s, p, 0) {
        Some(k) => Some((s.skip(k), s.take(k))),
        None => None,
    }
}

/// One list entry: `- `, its text, then a newline.
pub open spec fn item_of(s: Seq<char>) -> Option<(Seq<char>, Seq<char>)> {
    match tag(s, "- "@) {
        Some(r1) => match take_until(r1, "\n"@) {
            Some((r2, text)) => match tag(r2, "\n"@) {
                Some(r3) => Some((r3, text)),
                None => None,
            },
            None => None,
        },
        None => None,
    }
}

/// As many list entries as follow one another at the start of `s`, and what follows them.
pub open spec fn items_greedy(s: Seq<char>) -> (Seq<char>, Seq<Seq<char>>)
    decreases s.len(),
{
    match item_of(s) {
        Some((r, text)) => if r.len() < s.len() {
            let (rest, more) = items_greedy(r);
            (rest, seq![text] + more)
        } else {
            (s, Seq::empty())
        },
        None => (s, Seq::empty()),
    }
}

/// One list entry or more.
pub open spec fn many_items(s: Seq<char>) -> Option<(Seq<char>, Seq<Seq<char>>)> {
    let g = items_greedy(s);
    if g.1.len() > 0 {
        Some(g)
    } else {
        None
    }
}

/// A location heading, `== <id> ==`: what follows it, and the identifier.
pub open spec fn id_of(s: Seq<char>) -> Option<(Seq<char>, Seq<char>)> {
    match tag(s, "== "@) {
        Some(r1) => match take_until(r1, " ="@) {
            Some((r2, id)) => match tag(r2, " =="@) {
                Some(r3) => Some((r3, id)),
                None => None,
            },
            None => None,
        },
        None => None,
    }
}

/// A description: everything up to the next newline, which must exist.
pub open spec fn description_of(s: Seq<char>) -> Option<(Seq<char>, Seq<char>)> {
    take_until(s, "\n"@)
}

/// The optional item list: its header, then one entry or more; without the
/// header, no items and nothing consumed.
pub open spec fn items_of(s: Seq<char>) -> Option<(Seq<char>, Seq<Seq<char>>)> {
    match tag(s, "Things of interest here:\n"@) {
        Some(r) => many_items(r),
        None => Some((s, Seq::empty())),
    }
}

/// Whether `c` is an ASCII digit.
pub open spec fn is_digit(c: char) -> bool {
    '0' <= c <= '9'
}

/// Number of ASCII digits at the start of `s`.
pub open spec fn leading_digits(s: Seq<char>) -> nat
    decreases s.len(),
{
    if s.len() > 0 && is_digit(s[0]) {
        1 + leading_digits(s.drop_first())
    } else {
        0
    }
}

/// The exit list: `There are <n> exits:`, a newline, then one entry or more.
pub open spec fn exits_of(s: Seq<char>) -> Option<(Seq<char>, Seq<Seq<char>>)> {
    match tag(s, "There are "@) {
        Some(r1) => {
            let d = leading_digits(r1);
            if d == 0 {
                None
            } else {
                match tag(r1.skip(d as int), " exits:"@) {
                    Some(r2) => match tag(r2, "\n"@) {
                        Some(r3) => many_items(r3),
                        None => None,
                    },
                    None => None,
                }
            }
        },
        None => None,
    }
}

/// `s` from its first `==` on, or all of `s` if it holds none.
pub open spec fn skip_lead_in(s: Seq<char>) -> Seq<char> {
    match take_until(s, "=="@) {
        Some((r, _)) => r,
        None => s,
    }
}

/// A location as the game prints it: after any lead-in, the heading, a
/// newline, the description, two newlines, the optional item list, an
/// optional newline and the exit list; whatever follows is ignored.
pub open spec fn location_of(s: Seq<char>) -> Option<LocationView> {
    match id_of(skip_lead_in(s)) {
        Some((r1, id)) => match tag(r1, "\n"@) {
            Some(r2) => match description_of(r2) {
                Some((r3, description)) => match tag(r3, "\n"@) {
                    Some(r4) => match tag(r4, "\n"@) {
                        Some(r5) => match items_of(r5) {
                            Some((r6, items)) => {
                                let r7 = match tag(r6, "\n"@) {
                                    Some(r) => r,
                                    None => r6,
                                };
                                match exits_of(r7) {
                                    Some((_, exits)) => Some(
                                        LocationView { id, description, items, exits },
                                    ),
                                    None => None,
                                }
                            },
                            None => None,
                        },
                        None => None,
                    },
                    None => None,
                },
                None => None,
            },
            None => None,
        },
        None => None,
    }
}

/// A location of the maze.
#[derive(Debug, PartialEq)]
pub struct Location {
    id: String,
    description: String,
    items: Vec<String>,
    exits: Vec<String>,
}

/// The mathematical form of a location.
pub struct LocationView {
    pub id: Seq<char>,
    pub description: Seq<char>,
    pub items: Seq<Seq<char>>,
    pub exits: Seq<Seq<char>>,
}

/// The texts of a list of strings.
pub open spec fn texts(v: Seq<String>) -> Seq<Seq<char>> {
    v.map_values(|x: String| x@)
}

impl View for Location {
    type V = LocationView;

    closed spec fn view(&self) -> LocationView {
        LocationView {
            id: self.id@,
            description: self.description@,
            items: texts(self.items@),
            exits: texts(self.exits@),
        }
    }
}

/// Why a location could not be read.
#[derive(Debug, Clone, Copy, PartialEq, Eq, Structural)]
pub enum LocationError {
    ParseError,
}

impl Location {
    /// A location from its parts.
    pub fn new(id: String, description: String, items: Vec<String>, exits: Vec<String>) -> (r:
        Location)
        ensures
            r@ == (LocationView {
                id: id@,
                description: description@,
                items: texts(items@),
                exits: texts(exits@),
            }),
    {
        Location { id, description, items, exits }
    }

    /// The location's identifier.
    pub fn id(&self) -> (r: &String)
        ensures
            r@ == self@.id,
    {
        &self.id
    }

    /// The location's description.
    pub fn description(&self) -> (r: &String)
        ensures
            r@ == self@.description,
    {
        &self.description
    }

    /// The items lying at the location.
    pub fn items(&self) -> (r: &Vec<String>)
        ensures
            texts(r@) == self@.items,
    {
        &self.items
    }

    /// The exits of the location.
    pub fn exits(&self) -> (r: &Vec<String>)
        ensures
            texts(r@) == self@.exits,
    {
        &self.exits
    }
}

/// Whether `p` occurs in `v` at `pos`.
fn matches_at(v: &Vec<char>, pos: usize, p: &Vec<char>) -> (r: bool)
    requires
        pos <= v@.len(),
    ensures
        r == starts_with(v@.skip(pos as int), p@),
{
    let n = p.len();
    let len = v.len();
    if n > len - pos {
        return false;
    }
    let mut j: usize = 0;
    while j < n
        invariant
            len == v@.len(),
            pos + n <= v@.len(),
            n == p@.len(),
            j <= n,
            forall|k: int| 0 <= k < j ==> v@[pos + k] == p@[k],
        decreases n - j,
    {
        if v[pos + j] != p[j] {
            proof {
                assert(v@.skip(pos as int).take(n as int)[j as int] != p@[j as int]);
            }
            return false;
        }
        j = j + 1;
    }
    proof {
        assert(v@.skip(pos as int).take(n as int) =~= p@);
    }
    true
}

/// The position after `p` if `v` holds `p` at `pos`.
fn tag_at(v: &Vec<char>, pos: usize, p: &Vec<char>) -> (r: Option<usize>)
    requires
        pos <= v@.len(),
    ensures
        match tag(v@.skip(pos as int), p@) {
            Some(rest) => r matches Some(q) && q == pos + p@.len() && q <= v@.len() && rest
                == v@.skip(q as int),
            None => r is None,
        },
{
    let len = v.len();
    if matches_at(v, pos, p) {
        proof {
            assert(v@.skip(pos as int).skip(p@.len() as int) =~= v@.skip(pos + p@.len()));
        }
        Some(pos + p.len())
    } else {
        None
    }
}

/// The first position from `pos` on at which `p` occurs in `v`.
fn find_at(v: &Vec<char>, pos: usize, p: &Vec<char>) -> (r: Option<usize>)
    requires
        pos <= v@.len(),
    ensures
        match find_from(v@.skip(pos as int), p@, 0) {
            Some(k) => r matches Some(q) && q == pos + k && 0 <= k && q + p@.len() <= v@.len(),
            None => r is None,
        },
{
    let ghost t = v@.skip(pos as int);
    proof {
        if find_from(t, p@, 0) is Some {
            lemma_find_from_found(t, p@, 0);
        }
    }
    let mut k: usize = pos;
    while k < v.len()
        invariant
            pos <= k <= v@.len(),
            t == v@.skip(pos as int),
            find_from(t, p@, 0) == find_from(t, p@, k - pos),
        decreases v@.len() + 1 - k,
    {
        if p.len() > v.len() - k {
            return None;
        }
        proof {
            assert(t.skip(k - pos) =~= v@.skip(k as int));
        }
        if matches_at(v, k, p) {
            return Some(k);
        }
        k = k + 1;
    }
    proof {
        assert(t.skip(k - pos) =~= v@.skip(k as int));
        assert(find_from(t, p@, k - pos + 1) is None);
    }
    if matches_at(v, k, p) {
        Some(k)
    } else {
        None
    }
}

/// The text of `v` from `pos` up to the first occurrence of `p`, and where that occurrence starts.
fn take_until_at(v: &Vec<char>, pos: usize, p: &Vec<char>) -> (r: Option<(usize, String)>)
    requires
        pos <= v@.len(),
    ensures
        match take_until(v@.skip(pos as int), p@) {
            Some((rest, text)) => r matches Some((q, t)) && pos <= q <= v@.len() && rest == v@.skip(
                q as int,
            ) && t@ == text,
            None => r is None,
        },
{
    match find_at(v, pos, p) {
        Some(q) => {
            let text = string_of(v, pos, q);
            proof {
                assert(v@.skip(pos as int).skip(q - pos) =~= v@.skip(q as int));
                assert(v@.skip(pos as int).take(q - pos) =~= v@.subrange(pos as int, q as int));
            }
            Some((q, text))
        },
        None => None,
    }
}

/// One list entry at `pos`.
fn item_at(v: &Vec<char>, pos: usize) -> (r: Option<(usize, String)>)
    requires
        pos <= v@.len(),
    ensures
        match item_of(v@.skip(pos as int)) {
            Some((rest, text)) => r matches Some((q, t)) && pos < q <= v@.len() && rest == v@.skip(
                q as int,
            ) && t@ == text,
            None => r is None,
        },
{
    let dash = chars_of("- ");
    let newline = chars_of("\n");
    let after_dash = match tag_at(v, pos, &dash) {
        Some(after_dash) => after_dash,
        None => return None,
    };
    let (line_end, text) = match take_until_at(v, after_dash, &newline) {
        Some(found) => found,
        None => return None,
    };
    match tag_at(v, line_end, &newline) {
        Some(after_line) => {
            proof {
                reveal_strlit("- ");
            }
            Some((after_line, text))
        },
        None => None,
    }
}

/// One list entry or more at `pos`.
fn items_at(v: &Vec<char>, pos: usize) -> (r: Option<(usize, Vec<String>)>)
    requires
        pos <= v@.len(),
    ensures
        match many_items(v@.skip(pos as int)) {
            Some((rest, list)) => r matches Some((q, l)) && pos <= q <= v@.len() && rest == v@.skip(
                q as int,
            ) && texts(l@) == list,
            None => r is None,
        },
{
    let ghost whole = items_greedy(v@.skip(pos as int));
    let mut list: Vec<String> = Vec::new();
    let mut p = pos;
    loop
        invariant
            pos <= p <= v@.len(),
            whole == items_greedy(v@.skip(pos as int)),
            whole.0 == items_greedy(v@.skip(p as int)).0,
            whole.1 == texts(list@) + items_greedy(v@.skip(p as int)).1,
        ensures
            pos <= p <= v@.len(),
            whole.0 == v@.skip(p as int),
            whole.1 == texts(list@),
        decreases v@.len() - p,
    {
        match item_at(v, p) {
            Some((q, text)) => {
                proof {
                    let s = v@.skip(p as int);
                    assert(items_greedy(s) == (items_greedy(v@.skip(q as int)).0, seq![text@]
                        + items_greedy(v@.skip(q as int)).1));
                    assert(texts(list@.push(text)) =~= texts(list@).push(text@));
                    assert(texts(list@) + (seq![text@] + items_greedy(v@.skip(q as int)).1)
                        =~= texts(list@).push(text@) + items_greedy(v@.skip(q as int)).1);
                }
                list.push(text);
                p = q;
            },
            None => {
                proof {
                    assert(items_greedy(v@.skip(p as int)) == (v@.skip(p as int), Seq::<
                        Seq<char>,
                    >::empty()));
                    assert(texts(list@) + Seq::<Seq<char>>::empty() =~= texts(list@));
                }
                break ;
            },
        }
    }
    if list.len() == 0 {
        None
    } else {
        Some((p, list))
    }
}

/// A location heading at `pos`.
fn id_at(v: &Vec<char>, pos: usize) -> (r: Option<(usize, String)>)
    requires
        pos <= v@.len(),
    ensures
        match id_of(v@.skip(pos as int)) {
            Some((rest, id)) => r matches Some((q, t)) && pos <= q <= v@.len() && rest == v@.skip(
                q as int,
            ) && t@ == id,
            None => r is None,
        },
{
    let open = chars_of("== ");
    let close_start = chars_of(" =");
    let close = chars_of(" ==");
    let after_open = match tag_at(v, pos, &open) {
        Some(after_open) => after_open,
        None => return None,
    };
    let (close_at, id) = match take_until_at(v, after_open, &close_start) {
        Some(found) => found,
        None => return None,
    };
    match tag_at(v, close_at, &close) {
        Some(after_close) => Some((after_close, id)),
        None => None,
    }
}

/// The optional item list at `pos`.
fn items_section_at(v: &Vec<char>, pos: usize) -> (r: Option<(usize, Vec<String>)>)
    requires
        pos <= v@.len(),
    ensures
        match items_of(v@.skip(pos as int)) {
            Some((rest, list)) => r matches Some((q, l)) && pos <= q <= v@.len() && rest == v@.skip(
                q as int,
            ) && texts(l@) == list,
            None => r is None,
        },
{
    let header = chars_of("Things of interest here:\n");
    match tag_at(v, pos, &header) {
        Some(after_header) => items_at(v, after_header),
        None => {
            let none: Vec<String> = Vec::new();
            proof {
                assert(texts(none@) =~= Seq::<Seq<char>>::empty());
            }
            Some((pos, none))
        },
    }
}

/// The position after the ASCII digits that start at `pos`.
fn digits_at(v: &Vec<char>, pos: usize) -> (r: usize)
    requires
        pos <= v@.len(),
    ensures
        r == pos + leading_digits(v@.skip(pos as int)),
        r <= v@.len(),
{
    let mut p = pos;
    while p < v.len() && '0' <= v[p] && v[p] <= '9'
        invariant
            pos <= p <= v@.len(),
            leading_digits(v@.skip(pos as int)) == (p - pos) + leading_digits(v@.skip(p as int)),
        decreases v@.len() - p,
    {
        proof {
            assert(v@.skip(p as int).drop_first() =~= v@.skip(p + 1));
        }
        p = p + 1;
    }
    p
}

/// The exit list at `pos`.
fn exits_at(v: &Vec<char>, pos: usize) -> (r: Option<(usize, Vec<String>)>)
    requires
        pos <= v@.len(),
    ensures
        match exits_of(v@.skip(pos as int)) {
            Some((rest, list)) => r matches Some((q, l)) && pos <= q <= v@.len() && rest == v@.skip(
                q as int,
            ) && texts(l@) == list,
            None => r is None,
        },
{
    let intro = chars_of("There are ");
    let outro = chars_of(" exits:");
    let newline = chars_of("\n");
    let after_intro = match tag_at(v, pos, &intro) {
        Some(after_intro) => after_intro,
        None => return None,
    };
    let after_digits = digits_at(v, after_intro);
    if after_digits == after_intro {
        return None;
    }
    proof {
        assert(v@.skip(after_intro as int).skip(after_digits - after_intro) =~= v@.skip(after_digits as int));
    }
    let after_outro = match tag_at(v, after_digits, &outro) {
        Some(after_outro) => after_outro,
        None => return None,
    };
    match tag_at(v, after_outro, &newline) {
        Some(list_start) => items_at(v, list_start),
        None => None,
    }
}

/// The position of the first `==` from `pos` on, or `pos` if there is none.
fn skip_lead_in_at(v: &Vec<char>, pos: usize) -> (r: usize)
    requires
        pos <= v@.len(),
    ensures
        pos <= r <= v@.len(),
        skip_lead_in(v@.skip(pos as int)) == v@.skip(r as int),
{
    let marker = chars_of("==");
    match find_at(v, pos, &marker) {
        Some(q) => {
            proof {
                assert(v@.skip(pos as int).skip(q - pos) =~= v@.skip(q as int));
            }
            q
        },
        None => pos,
    }
}

/// A location at `pos`.
fn location_at(v: &Vec<char>, pos: usize) -> (r: Option<Location>)
    requires
        pos <= v@.len(),
    ensures
        match location_of(v@.skip(pos as int)) {
            Some(l) => r matches Some(loc) && loc@ == l,
            None => r is None,
        },
{
    let newline = chars_of("\n");
    let start = skip_lead_in_at(v, pos);
    let (after_id, id) = match id_at(v, start) {
        Some(found) => found,
        None => return None,
    };
    let text_start = match tag_at(v, after_id, &newline) {
        Some(text_start) => text_start,
        None => return None,
    };
    let (text_end, description) = match take_until_at(v, text_start, &newline) {
        Some(found) => found,
        None => return None,
    };
    let after_text = match tag_at(v, text_end, &newline) {
        Some(after_text) => after_text,
        None => return None,
    };
    let list_start = match tag_at(v, after_text, &newline) {
        Some(list_start) => list_start,
        None => return None,
    };
    let (after_items, items) = match items_section_at(v, list_start) {
        Some(found) => found,
        None => return None,
    };
    let exits_start = match tag_at(v, after_items, &newline) {
        Some(exits_start) => exits_start,
        None => after_items,
    };
    match exits_at(v, exits_start) {
        Some((_, exits)) => Some(Location::new(id, description, items, exits)),
        None => None,
    }
}

/// Parses a location heading, `== <id> ==`, at the start of `s`; returns
/// what follows it and the identifier.
pub fn parse_id(s: &str) -> (r: Result<(&str, String), LocationError>)
    ensures
        match id_of(s@) {
            Some((rest, id)) => r matches Ok((a, b)) && a@ == rest && b@ == id,
            None => r == Err::<(&str, String), LocationError>(LocationError::ParseError),
        },
{
    let v = chars_of(s);
    proof {
        assert(v@.skip(0) =~= v@);
    }
    match id_at(&v, 0) {
        Some((q, id)) => Ok((s.substring_char(q, v.len()), id)),
        None => Err(LocationError::ParseError),
    }
}

/// Parses a description: everything up to the next newline, which is left in
/// what follows.
pub fn parse_description(s: &str) -> (r: Result<(&str, String), LocationError>)
    ensures
        match description_of(s@) {
            Some((rest, text)) => r matches Ok((a, b)) && a@ == rest && b@ == text,
            None => r == Err::<(&str, String), LocationError>(LocationError::ParseError),
        },
{
    let v = chars_of(s);
    let newline = chars_of("\n");
    proof {
        assert(v@.skip(0) =~= v@);
    }
    match take_until_at(&v, 0, &newline) {
        Some((q, text)) => Ok((s.substring_char(q, v.len()), text)),
        None => Err(LocationError::ParseError),
    }
}

/// Parses the optional item list: the header `Things of interest here:`
/// and one `- <item>` line or more; without the header, no items.
pub fn parse_items(s: &str) -> (r: Result<(&str, Vec<String>), LocationError>)
    ensures
        match items_of(s@) {
            Some((rest, list)) => r matches Ok((a, b)) && a@ == rest && texts(b@) == list,
            None => r matches Err(LocationError::ParseError),
        },
{
    let v = chars_of(s);
    proof {
        assert(v@.skip(0) =~= v@);
    }
    match items_section_at(&v, 0) {
        Some((q, list)) => Ok((s.substring_char(q, v.len()), list)),
        None => Err(LocationError::ParseError),
    }
}

/// Parses the exit list: `There are <n> exits:` and one `- <exit>` line or more.
pub fn parse_exits(s: &str) -> (r: Result<(&str, Vec<String>), LocationError>)
    ensures
        match exits_of(s@) {
            Some((rest, list)) => r matches Ok((a, b)) && a@ == rest && texts(b@) == list,
            None => r matches Err(LocationError::ParseError),
        },
{
    let v = chars_of(s);
    proof {
        assert(v@.skip(0) =~= v@);
    }
    match exits_at(&v, 0) {
        Some((q, list)) => Ok((s.substring_char(q, v.len()), list)),
        None => Err(LocationError::ParseError),
    }
}

/// Parses a location from the game's text, skipping any lead-in before its
/// heading; the text after the exit list is consumed, so what is returned as
/// left over is always empty.
pub fn parse(s: &str) -> (r: Result<(&str, Location), LocationError>)
    ensures
        match location_of(s@) {
            Some(l) => r matches Ok((a, loc)) && a@ == Seq::<char>::empty() && loc@ == l,
            None => r matches Err(LocationError::ParseError),
        },
{
    let v = chars_of(s);
    proof {
        assert(v@.skip(0) =~= v@);
    }
    match location_at(&v, 0) {
        Some(location) => {
            let n = v.len();
            let rest = s.substring_char(n, n);
            proof {
                assert(rest@ =~= Seq::<char>::empty());
            }
            Ok((rest, location))
        },
        None => Err(LocationError::ParseError),
    }
}

impl std::str::FromStr for Location {
    type Err = LocationError;

    fn from_str(s: &str) -> Result<Location, LocationError> {
        match parse(s) {
            Ok((_, location)) => Ok(location),
            Err(e) => Err(e),
        }
    }
}

} // verus!
