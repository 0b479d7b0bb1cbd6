//! Change notifications of the mirror tables: `<localName>::<id>` payloads,
//! parsed and grouped by table.

use vstd::prelude::*;

verus! {

/// `s` has the separator `::` at `i`.
pub open spec fn sep_at(s: Seq<char>, i: int) -> bool {
    0 <= i && i + 1 < s.len() && s[i] == ':' && s[i + 1] == ':'
}

/// The first position of `::` at or after `from`, or `s.len()` when there is none.
pub open spec fn find_sep(s: Seq<char>, from: int) -> int
    decreases s.len() - from,
{
    if from < 0 || from + 1 >= s.len() {
        s.len() as int
    } else if sep_at(s, from) {
        from
    } else {
        find_sep(s, from + 1)
    }
}

/// The value of a run of decimal digits.
pub open spec fn digits_value(t: Seq<char>) -> nat
    decreases t.len(),
{
    if t.len() == 0 {
        0
    } else {
        digits_value(t.drop_last()) * 10 + (t.last() as nat - '0' as nat) as nat
    }
}

/// Every character is a decimal digit.
pub open spec fn all_digits(t: Seq<char>) -> bool {
    forall|i: int| 0 <= i < t.len() ==> '0' <= #[trigger] t[i] <= '9'
}

/// The signed decimal integer `t` denotes (an optional sign, then digits), if any.
pub open spec fn int_text(t: Seq<char>) -> Option<int> {
    if t.len() > 0 && (t[0] == '+' || t[0] == '-') {
        let d = t.drop_first();
        if d.len() > 0 && all_digits(d) {
            Some(if t[0] == '-' { -(digits_value(d) as int) } else { digits_value(d) as int })
        } else {
            None
        }
    } else if t.len() > 0 && all_digits(t) {
        Some(digits_value(t) as int)
    } else {
        None
    }
}

/// The `i32` that `t` denotes, as `str::parse::<i32>` reads it.
pub open spec fn i32_text(t: Seq<char>) -> Option<i32> {
    match int_text(t) {
        Some(v) => if i32::MIN <= v <= i32::MAX { Some(v as i32) } else { None },
        None => None,
    }
}

/// The table name and row id of a payload: the text before the first `::`,
/// and the number between it and the next `::` (or the end).
pub open spec fn payload_of(s: Seq<char>) -> Option<(Seq<char>, i32)> {
    let i = find_sep(s, 0);
    if i >= s.len() {
        None
    } else {
        let rest = s.subrange(i + 2, s.len() as int);
        let j = find_sep(rest, 0);
        match i32_text(rest.subrange(0, j)) {
            Some(id) => Some((s.subrange(0, i), id)),
            None => None,
        }
    }
}

/// A prefix of a run of digits is worth no more than the run.
pub proof fn lemma_digits_monotone(t: Seq<char>, k: int)
    requires
        0 <= k <= t.len(),
        all_digits(t),
    ensures
        digits_value(t.subrange(0, k)) <= digits_value(t),
    decreases t.len() - k,
{
    if k < t.len() {
        let u = t.subrange(0, k + 1);
        assert(u.drop_last() =~= t.subrange(0, k));
        assert('0' <= t[k] <= '9');
        lemma_digits_monotone(t, k + 1);
    } else {
        assert(t.subrange(0, k) =~= t);
    }
}

fn find_sep_exec(s: &str, from: usize) -> (r: usize)
    requires
        from <= s@.len(),
    ensures
        r as int == find_sep(s@, from as int),
        r <= s@.len(),
        r < s@.len() ==> sep_at(s@, r as int),
{
    let n = s.unicode_len();
    let mut i = from;
    while n > 0 && i < n - 1
        invariant
            n == s@.len(),
            from <= i <= n,
            find_sep(s@, from as int) == find_sep(s@, i as int),
        decreases n - i,
    {
        if s.get_char(i) == ':' && s.get_char(i + 1) == ':' {
            return i;
        }
        i = i + 1;
    }
    n
}

/// Parses a signed decimal `i32` as `str::parse::<i32>` does.
pub fn parse_i32(t: &str) -> (r: Option<i32>)
    ensures
        r == i32_text(t@),
{
    let n = t.unicode_len();
    if n == 0 {
        return None;
    }
    let c0 = t.get_char(0);
    let neg = c0 == '-';
    let start: usize = if c0 == '+' || c0 == '-' { 1 } else { 0 };
    if start >= n {
        return None;
    }
    let ghost d = t@.subrange(start as int, n as int);
    assert(start == 1 ==> d =~= t@.drop_first());
    assert(start == 0 ==> d =~= t@);
    let mut v: u64 = 0;
    let mut i = start;
    while i < n
        invariant
            n == t@.len(),
            start <= i <= n,
            d == t@.subrange(start as int, n as int),
            all_digits(t@.subrange(start as int, i as int)),
            v as nat == digits_value(t@.subrange(start as int, i as int)),
            v <= 2147483648,
            n > 0,
            start == 1 ==> d == t@.drop_first(),
            start == 0 ==> d == t@,
            (start == 1) == (t@[0] == '+' || t@[0] == '-'),
            start <= 1,
            neg == (t@[0] == '-'),
        decreases n - i,
    {
        let c = t.get_char(i);
        if c < '0' || c > '9' {
            assert(d[i - start] == c);
            assert(!all_digits(d));
            return None;
        }
        let dv = (c as u32 - '0' as u32) as u64;
        assert(t@.subrange(start as int, i + 1).drop_last() =~= t@.subrange(start as int, i as int));
        let nv = v * 10 + dv;
        assert(digits_value(t@.subrange(start as int, i + 1)) == nv);
        if nv > 2147483648 {
            proof {
                assert(all_digits(t@.subrange(start as int, i + 1)));
                if all_digits(d) {
                    assert(d.subrange(0, i + 1 - start) =~= t@.subrange(start as int, i + 1));
                    lemma_digits_monotone(d, i + 1 - start);
                }
            }
            return None;
        }
        v = nv;
        i = i + 1;
    }
    assert(t@.subrange(start as int, n as int) =~= d);
    if neg {
        let r = (0 - v as i64) as i32;
        Some(r)
    } else if v > 2147483647 {
        None
    } else {
        Some(v as i32)
    }
}

/// Reads a `<localName>::<id>` payload.
pub fn parse_notification(note: &str) -> (r: Option<(String, i32)>)
    ensures
        match r {
            Some((name, id)) => payload_of(note@) == Some((name@, id)),
            None => payload_of(note@) is None,
        },
{
    let n = note.unicode_len();
    let i = find_sep_exec(note, 0);
    if i >= n {
        return None;
    }
    let rest = note.substring_char(i + 2, n);
    let j = find_sep_exec(rest, 0);
    let id_text = rest.substring_char(0, j);
    match parse_i32(id_text) {
        Some(id) => {
            let name = note.substring_char(0, i);
            Some((String::from_str(name), id))
        },
        None => None,
    }
}

/// The payloads that can be read, in order.
pub open spec fn readable_payloads(notes: Seq<Seq<char>>) -> Seq<(Seq<char>, i32)>
    decreases notes.len(),
{
    if notes.len() == 0 {
        Seq::empty()
    } else {
        match payload_of(notes.last()) {
            Some(p) => readable_payloads(notes.drop_last()).push(p),
            None => readable_payloads(notes.drop_last()),
        }
    }
}

/// A table's changed row ids.
pub type GroupView = (Seq<char>, Seq<i32>);

/// `gs` with the id of `p` added to the group of its table, or a new group at the end.
pub open spec fn add_to_group(gs: Seq<GroupView>, p: (Seq<char>, i32)) -> Seq<GroupView> {
    if exists|i: int| 0 <= i < gs.len() && gs[i].0 == p.0 {
        let i = choose|i: int| 0 <= i < gs.len() && gs[i].0 == p.0;
        gs.update(i, (gs[i].0, gs[i].1.push(p.1)))
    } else {
        gs.push((p.0, seq![p.1]))
    }
}

/// The ids grouped by table: tables in order of first appearance, ids in
/// order of arrival.
pub open spec fn grouped(ps: Seq<(Seq<char>, i32)>) -> Seq<GroupView>
    decreases ps.len(),
{
    if ps.len() == 0 {
        Seq::empty()
    } else {
        add_to_group(grouped(ps.drop_last()), ps.last())
    }
}

/// The view of stored groups.
pub open spec fn groups_view(gs: Seq<(String, Vec<i32>)>) -> Seq<GroupView> {
    gs.map_values(|g: (String, Vec<i32>)| (g.0@, g.1@))
}

/// No two groups share a table.
pub open spec fn names_unique(gs: Seq<GroupView>) -> bool {
    forall|i: int, j: int| 0 <= i < gs.len() && 0 <= j < gs.len() && i != j ==> gs[i].0 != gs[j].0
}

fn add_to_group_exec(groups: &mut Vec<(String, Vec<i32>)>, name: String, id: i32)
    requires
        names_unique(groups_view(old(groups)@)),
    ensures
        groups_view(final(groups)@) == add_to_group(groups_view(old(groups)@), (name@, id)),
        names_unique(groups_view(final(groups)@)),
{
    let ghost old_view = groups_view(groups@);
    let mut i: usize = 0;
    while i < groups.len()
        invariant
            i <= groups@.len(),
            groups@ == old(groups)@,
            old_view == groups_view(groups@),
            names_unique(old_view),
            forall|k: int| 0 <= k < i ==> (#[trigger] old_view[k]).0 != name@,
        decreases groups@.len() - i,
    {
        if groups[i].0 == name {
            let ghost idx = i as int;
            assert(old_view[idx] == (groups@[idx].0@, groups@[idx].1@));
            proof {
                let c = choose|j: int| 0 <= j < old_view.len() && old_view[j].0 == name@;
                if c != idx {
                    assert(old_view[c].0 != old_view[idx].0);
                }
            }
            let mut g = groups.remove(i);
            g.1.push(id);
            groups.insert(i, g);
            assert(groups_view(groups@) =~= old_view.update(
                idx,
                (old_view[idx].0, old_view[idx].1.push(id)),
            ));
            assert forall|a: int, b: int|
                0 <= a < groups@.len() && 0 <= b < groups@.len() && a != b implies groups_view(
                    groups@,
                )[a].0 != groups_view(groups@)[b].0 by {
                assert(old_view[a].0 != old_view[b].0);
            }
            return;
        }
        i = i + 1;
    }
    let ghost nm = name@;
    let mut ids: Vec<i32> = Vec::new();
    ids.push(id);
    groups.push((name, ids));
    assert(groups_view(groups@) =~= old_view.push((nm, seq![id])));
    assert forall|a: int, b: int|
        0 <= a < groups@.len() && 0 <= b < groups@.len() && a != b implies groups_view(
            groups@,
        )[a].0 != groups_view(groups@)[b].0 by {
        if a < old_view.len() && b < old_view.len() {
            assert(old_view[a].0 != old_view[b].0);
        }
    }
}

/// Groups the readable payloads by table, as the egress worker drains them;
/// unreadable payloads are skipped.
pub fn group_notifications(notes: &Vec<String>) -> (r: Vec<(String, Vec<i32>)>)
    ensures
        groups_view(r@) == grouped(readable_payloads(notes@.map_values(|s: String| s@))),
        names_unique(groups_view(r@)),
{
    let ghost nv = notes@.map_values(|s: String| s@);
    let mut groups: Vec<(String, Vec<i32>)> = Vec::new();
    let mut i: usize = 0;
    assert(groups_view(groups@) =~= Seq::<GroupView>::empty());
    while i < notes.len()
        invariant
            i <= notes@.len(),
            nv == notes@.map_values(|s: String| s@),
            groups_view(groups@) == grouped(readable_payloads(nv.subrange(0, i as int))),
            names_unique(groups_view(groups@)),
        decreases notes@.len() - i,
    {
        assert(nv.subrange(0, i + 1).drop_last() =~= nv.subrange(0, i as int));
        assert(nv[i as int] == notes@[i as int]@);
        assert(nv.subrange(0, i + 1).last() == notes@[i as int]@);
        match parse_notification(notes[i].as_str()) {
            Some((name, id)) => {
                let ghost prev = readable_payloads(nv.subrange(0, i as int));
                let ghost p = (name@, id);
                assert(readable_payloads(nv.subrange(0, i + 1)) == prev.push(p));
                assert(prev.push(p).drop_last() =~= prev);
                add_to_group_exec(&mut groups, name, id);
                assert(groups_view(groups@) == grouped(prev.push(p)));
            },
            None => {
                assert(readable_payloads(nv.subrange(0, i + 1)) == readable_payloads(
                    nv.subrange(0, i as int),
                ));
            },
        }
        i = i + 1;
    }
    assert(nv.subrange(0, notes@.len() as int) =~= nv);
    groups
}

} // verus!
