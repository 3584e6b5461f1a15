use vstd::prelude::*;

verus! {

/// A character that HTTP allows in a header name (a token character).
/// Upper-case letters are allowed: the transport folds them to lower case.
pub open spec fn header_name_char(c: char) -> bool {
    ('a' <= c && c <= 'z') || ('A' <= c && c <= 'Z') || ('0' <= c && c <= '9') || c == '!'
        || c == '#' || c == '$' || c == '%' || c == '&' || c == '\'' || c == '*' || c == '+'
        || c == '-' || c == '.' || c == '^' || c == '_' || c == '`' || c == '|' || c == '~'
}

/// A legal header name: between 1 and 65535 token characters.
pub open spec fn header_name_valid(s: Seq<char>) -> bool {
    1 <= s.len() <= 65535 && forall|i: int| 0 <= i < s.len() ==> header_name_char(#[trigger] s[i])
}

/// A character that HTTP allows in a header value: a tab, or anything from the
/// space on but DEL.
pub open spec fn header_value_char(c: char) -> bool {
    c == '\t' || (' ' <= c && c != '\x7f')
}

/// A legal header value.
pub open spec fn header_value_valid(s: Seq<char>) -> bool {
    forall|i: int| 0 <= i < s.len() ==> header_value_char(#[trigger] s[i])
}

/// Which part of a header pair is illegal.
#[derive(Clone, Copy, Debug, PartialEq, Eq, Structural)]
pub enum HeaderFault {
    Name,
    Value,
}

/// The first fault in a list of header pairs, read front to back; the name of a
/// pair is looked at before its value.
pub open spec fn header_fault(hs: Seq<(Seq<char>, Seq<char>)>) -> Option<HeaderFault>
    decreases hs.len(),
{
    if hs.len() == 0 {
        None
    } else {
        match header_fault(hs.drop_last()) {
            Some(f) => Some(f),
            None => if !header_name_valid(hs.last().0) {
                Some(HeaderFault::Name)
            } else if !header_value_valid(hs.last().1) {
                Some(HeaderFault::Value)
            } else {
                None
            },
        }
    }
}

} // verus!

verus! {

/// The text of each pair of a list of string-slice pairs.
pub open spec fn str_pairs(s: Seq<(&str, &str)>) -> Seq<(Seq<char>, Seq<char>)> {
    s.map_values(|p: (&str, &str)| (p.0@, p.1@))
}

/// The text of each pair of a list of string pairs.
pub open spec fn string_pairs(s: Seq<(String, String)>) -> Seq<(Seq<char>, Seq<char>)> {
    s.map_values(|p: (String, String)| (p.0@, p.1@))
}

/// Once a prefix of a header list has a fault, every longer prefix has the same one.
pub(crate) proof fn lemma_first_fault_stays(hs: Seq<(Seq<char>, Seq<char>)>, n: int)
    requires
        0 <= n <= hs.len(),
    ensures
        header_fault(hs.take(n)) is Some ==> header_fault(hs) == header_fault(hs.take(n)),
    decreases hs.len() - n,
{
    if n < hs.len() {
        lemma_first_fault_stays(hs, n + 1);
        assert(hs.take(n + 1).drop_last() =~= hs.take(n));
    } else {
        assert(hs.take(n) =~= hs);
    }
}

} // verus!

verus! {

/// A header name as the transport keeps it: ASCII upper-case letters folded to lower case.
pub open spec fn header_key(s: Seq<char>) -> Seq<char> {
    s.map_values(|c: char| if 'A' <= c && c <= 'Z' { ((c as u32) + 32) as char } else { c })
}

} // verus!

verus! {

/// What a list of header pairs leaves in a map where each pair replaces an
/// earlier one of the same (case-folded) name: the last value of each name.
pub open spec fn header_map_of(hs: Seq<(Seq<char>, Seq<char>)>) -> Map<Seq<char>, Seq<char>>
    decreases hs.len(),
{
    if hs.len() == 0 {
        Map::empty()
    } else {
        header_map_of(hs.drop_last()).insert(header_key(hs.last().0), hs.last().1)
    }
}

/// The map of a header list has no more names than the list has pairs.
pub proof fn lemma_header_map_size(hs: Seq<(Seq<char>, Seq<char>)>)
    ensures
        header_map_of(hs).dom().finite(),
        header_map_of(hs).dom().len() <= hs.len(),
    decreases hs.len(),
{
    if hs.len() > 0 {
        lemma_header_map_size(hs.drop_last());
    }
}

} // verus!

verus! {

/// Header values by case-folded name, each name's values in the order they came.
pub open spec fn append_header(
    m: Map<Seq<char>, Seq<Seq<char>>>,
    name: Seq<char>,
    value: Seq<char>,
) -> Map<Seq<char>, Seq<Seq<char>>> {
    m.insert(
        name,
        if m.dom().contains(name) {
            m[name].push(value)
        } else {
            seq![value]
        },
    )
}

/// What adding a list of header pairs, one after the other, leaves in a map of
/// header values by name: each name case-folded, and each name's values in the
/// order of the list, repeats kept.
pub open spec fn header_values(
    base: Map<Seq<char>, Seq<Seq<char>>>,
    hs: Seq<(Seq<char>, Seq<char>)>,
) -> Map<Seq<char>, Seq<Seq<char>>>
    decreases hs.len(),
{
    if hs.len() == 0 {
        base
    } else {
        append_header(header_values(base, hs.drop_last()), header_key(hs.last().0), hs.last().1)
    }
}

/// Adding header pairs adds no more names than there are pairs.
pub proof fn lemma_header_values_size(
    base: Map<Seq<char>, Seq<Seq<char>>>,
    hs: Seq<(Seq<char>, Seq<char>)>,
)
    requires
        base.dom().finite(),
    ensures
        header_values(base, hs).dom().finite(),
        header_values(base, hs).dom().len() <= base.dom().len() + hs.len(),
    decreases hs.len(),
{
    if hs.len() > 0 {
        lemma_header_values_size(base, hs.drop_last());
    }
}

} // verus!
