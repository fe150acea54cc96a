//! Automatic numbering of cable tags.
//!
//! Tags of the form `prefix-number` are numbered upward: the next tag has the
//! number after the highest one in use, written with at least three digits.

use vstd::prelude::*;
use vstd::string::*;
use crate::text::{i32_value, is_i32_text, parse_i32, push_padded3, strip_prefix, zero_padded};

verus! {

/// The number of a tag: what stands behind the lead, where the tag starts
/// with the lead and the rest writes a 32-bit signed integer.
pub open spec fn tag_number(tag: Seq<char>, lead: Seq<char>) -> Option<int> {
    if lead.is_prefix_of(tag) && is_i32_text(tag.skip(lead.len() as int)) {
        Some(i32_value(tag.skip(lead.len() as int)))
    } else {
        None
    }
}

/// The highest number among tags, and zero where none has a number above
/// zero.
pub open spec fn highest_number(tags: Seq<Seq<char>>, lead: Seq<char>) -> int
    decreases tags.len(),
{
    if tags.len() == 0 {
        0
    } else {
        let before = highest_number(tags.drop_last(), lead);
        match tag_number(tags.last(), lead) {
            Some(number) if number > before => number,
            _ => before,
        }
    }
}

/// The next free tag of a prefix: the prefix, a hyphen, and the number after
/// the highest one in use, with at least three digits.
pub open spec fn next_tag(prefix: Seq<char>, tags: Seq<Seq<char>>) -> Seq<char> {
    prefix + "-"@ + zero_padded((highest_number(tags, prefix + "-"@) + 1) as nat, 3)
}

/// The characters of each string of a list.
pub open spec fn texts(strings: Seq<String>) -> Seq<Seq<char>> {
    Seq::new(strings.len(), |i: int| strings[i]@)
}

/// The highest number is never below zero, and never above the largest
/// 32-bit signed integer.
pub proof fn lemma_highest_number_bounds(tags: Seq<Seq<char>>, lead: Seq<char>)
    ensures
        0 <= highest_number(tags, lead) <= i32::MAX,
    decreases tags.len(),
{
    if tags.len() > 0 {
        lemma_highest_number_bounds(tags.drop_last(), lead);
        crate::text::lemma_i32_value_bounds(tags.last().skip(lead.len() as int));
    }
}

/// The number of a tag behind a lead.
pub fn tag_number_of(tag: &str, lead: &str) -> (r: Option<i32>)
    ensures
        match tag_number(tag@, lead@) {
            Some(number) => r == Some(number as i32) && i32::MIN <= number <= i32::MAX,
            None => r is None,
        },
{
    proof {
        crate::text::lemma_i32_value_bounds(tag@.skip(lead@.len() as int));
    }
    match strip_prefix(tag, lead) {
        Some(rest) => parse_i32(rest),
        None => None,
    }
}

/// The next free tag of a prefix, given the tags in use.
pub fn next_cable_tag(prefix: &str, tags: &[String]) -> (r: String)
    ensures
        r@ == next_tag(prefix@, texts(tags@)),
{
    let mut lead = String::from_str(prefix);
    lead.append("-");
    let ghost all = texts(tags@);
    let mut highest: i32 = 0;
    let mut i: usize = 0;
    assert(all.take(0) =~= Seq::empty());
    while i < tags.len()
        invariant
            i <= tags.len(),
            all == texts(tags@),
            lead@ == prefix@ + "-"@,
            highest == highest_number(all.take(i as int), lead@),
        decreases tags.len() - i,
    {
        proof {
            assert(all.take(i + 1).drop_last() =~= all.take(i as int));
            assert(all.take(i + 1).last() == tags[i as int]@);
        }
        if let Some(number) = tag_number_of(tags[i].as_str(), lead.as_str()) {
            if number > highest {
                highest = number;
            }
        }
        i += 1;
    }
    proof {
        assert(all.take(tags.len() as int) =~= all);
        lemma_highest_number_bounds(all, lead@);
    }
    let mut tag = lead;
    push_padded3(&mut tag, (highest as u64) + 1);
    tag
}

} // verus!
