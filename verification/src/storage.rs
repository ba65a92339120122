//! Bookmark and history records, and the text forms in which the database keeps them.
use vstd::prelude::*;
use crate::browser::strs;
use crate::text::{join, join_strings, split_pieces, split_str, views, concat3};
use crate::text::{i64_to_string, signed_decimal};

verus! {

/// A bookmark; times are seconds since the Unix epoch.
#[derive(Debug, Clone)]
pub struct Bookmark {
    pub id: i64,
    pub url: String,
    pub title: String,
    pub tags: Vec<String>,
    pub created_at: i64,
    pub updated_at: i64,
}

/// A visited page; the time is seconds since the Unix epoch.
#[derive(Debug, Clone)]
pub struct HistoryEntry {
    pub id: i64,
    pub url: String,
    pub title: String,
    pub visited_at: i64,
}

/// The pieces that are not empty, in order.
pub open spec fn drop_empty(ps: Seq<Seq<char>>) -> Seq<Seq<char>>
    decreases ps.len(),
{
    if ps.len() == 0 {
        ps
    } else {
        let r = drop_empty(ps.drop_last());
        if ps.last().len() > 0 {
            r.push(ps.last())
        } else {
            r
        }
    }
}

/// Tags as stored: joined by commas.
pub fn join_tags(tags: &Vec<String>) -> (r: String)
    ensures
        r@ == join(views(tags@), ","@),
{
    join_strings(tags, ",")
}

/// Tags read back from their stored form: split at commas, empty pieces dropped; no
/// stored form gives no tags.
pub fn parse_tags(stored: Option<&str>) -> (r: Vec<String>)
    ensures
        match stored {
            None => r@.len() == 0,
            Some(s) => strs(r@) == drop_empty(split_pieces(s@, ","@)),
        },
{
    let mut out: Vec<String> = Vec::new();
    match stored {
        None => out,
        Some(s) => {
            proof {
                reveal_strlit(",");
            }
            let pieces = split_str(s, ",");
            let ghost ps = strs(pieces@);
            let mut i: usize = 0;
            while i < pieces.len()
                invariant
                    i <= pieces.len(),
                    ps == strs(pieces@),
                    strs(out@) == drop_empty(ps.take(i as int)),
                decreases pieces.len() - i,
            {
                proof {
                    assert(ps.take(i as int + 1).drop_last() =~= ps.take(i as int));
                    assert(ps.take(i as int + 1).last() == pieces@[i as int]@);
                }
                if !pieces[i].as_str().is_empty() {
                    out.push(pieces[i].clone());
                    proof {
                        assert(strs(out@) =~= strs(out@.drop_last()).push(out@.last()@));
                    }
                }
                i = i + 1;
            }
            assert(ps.take(pieces@.len() as int) =~= ps);
            out
        },
    }
}

/// The pattern that finds `s` anywhere in a text column: `%s%`.
pub fn like_pattern(s: &str) -> (r: String)
    ensures
        r@ == "%"@ + s@ + "%"@,
{
    concat3("%", s, "%")
}

/// The date modifier for "`days` days ago": `-<days> days`.
pub fn age_modifier(days: i64) -> (r: String)
    ensures
        r@ == "-"@ + signed_decimal(days as int) + " days"@,
{
    let d = i64_to_string(days);
    concat3("-", d.as_str(), " days")
}

} // verus!
