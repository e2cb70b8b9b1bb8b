use vstd::prelude::*;
use crate::schema::views;
use vstd::string::StrSliceExecFns;
use vstd::string::StringExecFns;

verus! {

/// The views of a sequence of strings.
pub open spec fn texts(items: Seq<String>) -> Seq<Seq<char>> {
    Seq::new(items.len(), |i: int| items[i]@)
}

/// The items in order, with the separator between each two neighbours.
pub open spec fn spec_join(items: Seq<Seq<char>>, separator: Seq<char>) -> Seq<char>
    decreases items.len(),
{
    if items.len() == 0 {
        Seq::empty()
    } else if items.len() == 1 {
        items[0]
    } else {
        spec_join(items.drop_last(), separator) + separator + items.last()
    }
}

/// The items in order, nothing between them.
pub open spec fn spec_concat(items: Seq<Seq<char>>) -> Seq<char>
    decreases items.len(),
{
    if items.len() == 0 {
        Seq::empty()
    } else {
        spec_concat(items.drop_last()) + items.last()
    }
}

/// `count` copies of `unit` in a row.
pub open spec fn spec_repeat(unit: Seq<char>, count: nat) -> Seq<char>
    decreases count,
{
    if count == 0 {
        Seq::empty()
    } else {
        spec_repeat(unit, (count - 1) as nat) + unit
    }
}

/// The items in order, with the separator between each two neighbours.
pub fn join(items: &Vec<String>, separator: &str) -> (out: String)
    ensures
        out@ == spec_join(texts(items@), separator@),
{
    let mut out = String::new();
    let mut i: usize = 0;
    while i < items.len()
        invariant
            0 <= i <= items.len(),
            out@ == spec_join(texts(items@).take(i as int), separator@),
        decreases items.len() - i,
    {
        proof {
            let all = texts(items@);
            assert(all.take(i as int + 1).drop_last() =~= all.take(i as int));
            assert(all.take(i as int + 1).last() == items@[i as int]@);
            assert(Seq::<char>::empty() + items@[i as int]@ =~= items@[i as int]@);
        }
        if i > 0 {
            out.append(separator);
        }
        out.append(items[i].as_str());
        i += 1;
    }
    proof {
        assert(texts(items@).take(items.len() as int) =~= texts(items@));
    }
    out
}

/// The items in order, nothing between them.
pub fn concat(items: &Vec<String>) -> (out: String)
    ensures
        out@ == spec_concat(texts(items@)),
{
    let mut out = String::new();
    let mut i: usize = 0;
    while i < items.len()
        invariant
            0 <= i <= items.len(),
            out@ == spec_concat(texts(items@).take(i as int)),
        decreases items.len() - i,
    {
        proof {
            let all = texts(items@);
            assert(all.take(i as int + 1).drop_last() =~= all.take(i as int));
            assert(all.take(i as int + 1).last() == items@[i as int]@);
        }
        out.append(items[i].as_str());
        i += 1;
    }
    proof {
        assert(texts(items@).take(items.len() as int) =~= texts(items@));
    }
    out
}

/// `count` copies of `unit` in a row.
pub fn repeat(unit: &str, count: usize) -> (out: String)
    ensures
        out@ == spec_repeat(unit@, count as nat),
{
    let mut out = String::new();
    let mut i: usize = 0;
    while i < count
        invariant
            0 <= i <= count,
            out@ == spec_repeat(unit@, i as nat),
        decreases count - i,
    {
        out.append(unit);
        i += 1;
    }
    out
}

/// A string of its own with the same characters.
pub fn text_of(source: &str) -> (out: String)
    ensures
        out@ == source@,
{
    String::from_str(source)
}

/// Whether the two have the same characters.
pub fn same_text(left: &String, right: &str) -> (same: bool)
    ensures
        same == (left@ == right@),
{
    let other = String::from_str(right);
    *left == other
}

/// Whether `left` comes before `right` in the order of strings: at the
/// first place where they differ `left` has the smaller character, or
/// `left` ends there and `right` does not.
pub open spec fn spec_less(left: Seq<char>, right: Seq<char>) -> bool
    decreases left.len(),
{
    if right.len() == 0 {
        false
    } else if left.len() == 0 {
        true
    } else if left[0] != right[0] {
        (left[0] as u32) < (right[0] as u32)
    } else {
        spec_less(left.skip(1), right.skip(1))
    }
}

/// Behind a common start, the order of two strings is the order of what
/// is left of them.
pub proof fn lemma_less_behind_common_start(left: Seq<char>, right: Seq<char>, count: int)
    requires
        0 <= count <= left.len(),
        count <= right.len(),
        forall|j: int| 0 <= j < count ==> left[j] == right[j],
    ensures
        spec_less(left, right) == spec_less(left.skip(count), right.skip(count)),
    decreases count,
{
    if count == 0 {
        assert(left.skip(0) =~= left);
        assert(right.skip(0) =~= right);
    } else {
        lemma_less_behind_common_start(left.skip(1), right.skip(1), count - 1);
        assert(left.skip(1).skip(count - 1) =~= left.skip(count));
        assert(right.skip(1).skip(count - 1) =~= right.skip(count));
    }
}

/// No string comes before itself.
pub proof fn lemma_less_is_strict(text: Seq<char>)
    ensures
        !spec_less(text, text),
    decreases text.len(),
{
    if text.len() > 0 {
        lemma_less_is_strict(text.skip(1));
    }
}

/// Of two different strings one comes before the other.
pub proof fn lemma_less_is_total(left: Seq<char>, right: Seq<char>)
    requires
        left != right,
    ensures
        spec_less(left, right) || spec_less(right, left),
    decreases left.len(),
{
    if left.len() > 0 && right.len() > 0 && left[0] == right[0] {
        if left.skip(1) == right.skip(1) {
            assert(left =~= seq![left[0]] + left.skip(1));
            assert(right =~= seq![right[0]] + right.skip(1));
        }
        lemma_less_is_total(left.skip(1), right.skip(1));
    } else if left.len() == 0 && right.len() == 0 {
        assert(left =~= right);
    } else if left.len() > 0 && right.len() > 0 {
        let here = left[0];
        let there = right[0];
        assert(here != there);
        vstd::utf8::char_u32_cast(here, here as u32);
        vstd::utf8::char_u32_cast(there, there as u32);
    }
}

/// What comes before a string that comes before a third comes before the
/// third.
pub proof fn lemma_less_is_transitive(first: Seq<char>, second: Seq<char>, third: Seq<char>)
    requires
        spec_less(first, second),
        spec_less(second, third),
    ensures
        spec_less(first, third),
    decreases first.len(),
{
    if first.len() > 0 && second.len() > 0 && third.len() > 0 {
        if first[0] == second[0] && second[0] == third[0] {
            lemma_less_is_transitive(first.skip(1), second.skip(1), third.skip(1));
        }
    }
}

/// Whether `left` comes before `right` in the order of strings.
pub fn text_less(left: &str, right: &str) -> (less: bool)
    ensures
        less == spec_less(left@, right@),
{
    let left_length = left.unicode_len();
    let right_length = right.unicode_len();
    let mut i: usize = 0;
    while i < left_length && i < right_length
        invariant
            0 <= i <= left_length,
            i <= right_length,
            left_length == left@.len(),
            right_length == right@.len(),
            forall|j: int| 0 <= j < i ==> left@[j] == right@[j],
        decreases left_length - i,
    {
        let here = left.get_char(i);
        let there = right.get_char(i);
        if here != there {
            proof {
                lemma_less_behind_common_start(left@, right@, i as int);
            }
            return (here as u32) < (there as u32);
        }
        i += 1;
    }
    proof {
        lemma_less_behind_common_start(left@, right@, i as int);
    }
    i < right_length
}

/// Moves the strings of `more` behind those of `out`.
pub fn extend(out: &mut Vec<String>, more: Vec<String>)
    ensures
        texts(final(out)@) == texts(old(out)@) + texts(more@),
{
    let mut rest = more;
    let ghost added = rest@;
    out.append(&mut rest);
    proof {
        assert(texts(out@) =~= texts(old(out)@) + texts(added));
    }
}

/// Whether one of the strings has the characters of `name`.
pub fn contains_text(items: &Vec<String>, name: &str) -> (found: bool)
    ensures
        found == texts(items@).contains(name@),
{
    let mut i: usize = 0;
    while i < items.len()
        invariant
            0 <= i <= items.len(),
            forall|j: int| 0 <= j < i ==> texts(items@)[j] != name@,
        decreases items.len() - i,
    {
        if same_text(&items[i], name) {
            proof {
                assert(texts(items@)[i as int] == name@);
            }
            return true;
        }
        i += 1;
    }
    false
}

/// Copies of the strings, in order.
pub fn copy_texts(items: &Vec<String>) -> (out: Vec<String>)
    ensures
        texts(out@) == texts(items@),
        out@.len() == items@.len(),
{
    let mut out: Vec<String> = Vec::new();
    let mut i: usize = 0;
    while i < items.len()
        invariant
            0 <= i <= items.len(),
            out@.len() == i,
            forall|j: int| 0 <= j < i ==> out@[j]@ == items@[j]@,
        decreases items.len() - i,
    {
        out.push(items[i].clone());
        i += 1;
    }
    proof {
        assert(texts(out@) =~= texts(items@));
    }
    out
}

/// A copy of the string, where there is one.
pub fn copy_option(item: &Option<String>) -> (out: Option<String>)
    ensures
        out.is_some() == item.is_some(),
        out.is_some() ==> out.unwrap()@ == item.unwrap()@,
{
    match item {
        Some(text) => Some(text.clone()),
        None => None,
    }
}

} // verus!
