//! Reading the seed file: which lines are records, and what a file holds.
use vstd::prelude::*;
use crate::codec::{
    decode, decode_spec, hex_of, is_blank, lemma_hex_unpadded, lemma_hex_round_trip,
    lemma_round_trip, trim, SEED_LEN,
};

verus! {

/// Why the seed file could not be read or written.
#[derive(Debug, Clone, Copy, PartialEq, Eq, Structural)]
pub enum StoreError {
    /// The file could not be opened, read or written.
    Io,
    /// A line of the file is not a record.
    InvalidData,
}

/// The seeds of a list, each as its bytes.
pub open spec fn seeds_view(v: Seq<[u8; 32]>) -> Seq<Seq<u8>> {
    v.map_values(|s: [u8; 32]| s@)
}

/// The lines of a file, each as its characters.
pub open spec fn lines_view(v: Seq<String>) -> Seq<Seq<char>> {
    v.map_values(|l: String| l@)
}

/// The record lines of a list of seeds, in order.
pub open spec fn records_of(seeds: Seq<Seq<u8>>) -> Seq<Seq<char>> {
    seeds.map_values(|s: Seq<u8>| hex_of(s))
}

/// The seeds that a file's lines hold, in order, skipping blank lines; none
/// if any other line is not a record.
pub open spec fn load_spec(lines: Seq<Seq<char>>) -> Option<Seq<Seq<u8>>>
    decreases lines.len(),
{
    if lines.len() == 0 {
        Some(Seq::empty())
    } else {
        match load_spec(lines.drop_last()) {
            None => None,
            Some(prev) => if is_blank(lines.last()) {
                Some(prev)
            } else {
                match decode_spec(lines.last()) {
                    Ok(s) => Some(prev.push(s)),
                    Err(_) => None,
                }
            },
        }
    }
}

/// A file whose first lines hold no list of seeds holds none either.
pub proof fn lemma_load_prefix_none(lines: Seq<Seq<char>>, i: int)
    requires
        0 <= i <= lines.len(),
        load_spec(lines.take(i)) is None,
    ensures
        load_spec(lines) is None,
    decreases lines.len(),
{
    if i < lines.len() {
        assert(lines.drop_last().take(i) =~= lines.take(i));
        lemma_load_prefix_none(lines.drop_last(), i);
    } else {
        assert(lines.take(i) =~= lines);
    }
}

/// The seeds that the lines of a file hold, in order. Blank lines are
/// skipped; any other line that is not a record fails the whole read.
pub fn parse_records(lines: &Vec<String>) -> (r: Result<Vec<[u8; 32]>, StoreError>)
    ensures
        match r {
            Ok(v) => load_spec(lines_view(lines@)) == Some(seeds_view(v@)),
            Err(e) => e == StoreError::InvalidData && load_spec(lines_view(lines@)) is None,
        },
{
    let ghost all = lines_view(lines@);
    let mut seeds: Vec<[u8; 32]> = Vec::new();
    let mut i: usize = 0;
    assert(all.take(0) =~= Seq::<Seq<char>>::empty());
    assert(seeds_view(seeds@) =~= Seq::<Seq<u8>>::empty());
    while i < lines.len()
        invariant
            i <= lines.len(),
            all == lines_view(lines@),
            load_spec(all.take(i as int)) == Some(seeds_view(seeds@)),
        decreases lines.len() - i,
    {
        let line: &str = lines[i].as_str();
        assert(all.take(i + 1).drop_last() =~= all.take(i as int));
        assert(all.take(i + 1).last() == line@);
        if trim(line).is_empty() {
        } else {
            match decode(line) {
                Ok(seed) => {
                    let ghost prev = seeds@;
                    seeds.push(seed);
                    assert(seeds_view(seeds@) =~= seeds_view(prev).push(seed@));
                },
                Err(_) => {
                    proof {
                        lemma_load_prefix_none(all, i + 1);
                    }
                    return Err(StoreError::InvalidData);
                },
            }
        }
        i = i + 1;
    }
    assert(all.take(i as int) =~= all);
    Ok(seeds)
}

/// What the seed file holds: nothing where there is no file, else the
/// seeds of its lines.
pub fn load(file: Option<&Vec<String>>) -> (r: Result<Vec<[u8; 32]>, StoreError>)
    ensures
        match file {
            None => r matches Ok(v) && v@.len() == 0,
            Some(lines) => match r {
                Ok(v) => load_spec(lines_view(lines@)) == Some(seeds_view(v@)),
                Err(e) => e == StoreError::InvalidData && load_spec(lines_view(lines@)) is None,
            },
        },
{
    match file {
        None => Ok(Vec::new()),
        Some(lines) => parse_records(lines),
    }
}

/// Appending the record of a seed to a file appends that seed to what the
/// file holds.
pub proof fn lemma_load_append(lines: Seq<Seq<char>>, seeds: Seq<Seq<u8>>, s: Seq<u8>)
    requires
        load_spec(lines) == Some(seeds),
        s.len() == SEED_LEN,
    ensures
        load_spec(lines.push(hex_of(s))) == Some(seeds.push(s)),
{
    let l = lines.push(hex_of(s));
    assert(l.drop_last() =~= lines);
    lemma_round_trip(s);
    lemma_hex_round_trip(s);
    lemma_hex_unpadded(hex_of(s));
}

/// A file made of the records of seeds, appended one by one, holds exactly
/// those seeds in that order.
pub proof fn lemma_append_then_load(seeds: Seq<Seq<u8>>)
    requires
        forall|k: int| 0 <= k < seeds.len() ==> (#[trigger] seeds[k]).len() == SEED_LEN,
    ensures
        load_spec(records_of(seeds)) == Some(seeds),
    decreases seeds.len(),
{
    if seeds.len() == 0 {
        assert(records_of(seeds) =~= Seq::<Seq<char>>::empty());
    } else {
        let prev = seeds.drop_last();
        lemma_append_then_load(prev);
        assert(records_of(seeds) =~= records_of(prev).push(hex_of(seeds.last())));
        lemma_load_append(records_of(prev), prev, seeds.last());
        assert(prev.push(seeds.last()) =~= seeds);
    }
}

/// Blank lines do not change what a file holds: it holds what the same
/// file without them holds.
pub proof fn lemma_blank_lines_skipped(lines: Seq<Seq<char>>)
    ensures
        load_spec(lines) == load_spec(lines.filter(|l: Seq<char>| !is_blank(l))),
    decreases lines.len(),
{
    reveal_with_fuel(Seq::filter, 1);
    let p = |l: Seq<char>| !is_blank(l);
    if lines.len() > 0 {
        lemma_blank_lines_skipped(lines.drop_last());
        let f = lines.drop_last().filter(p);
        if p(lines.last()) {
            assert(f.push(lines.last()).drop_last() =~= f);
        }
    }
}

/// A file with a line that is neither blank nor a record (one of fewer
/// than 32 bytes, say) holds no list of seeds at all.
pub proof fn lemma_malformed_line_rejected(lines: Seq<Seq<char>>, i: int)
    requires
        0 <= i < lines.len(),
        !is_blank(lines[i]),
        decode_spec(lines[i]) is Err,
    ensures
        load_spec(lines) is None,
{
    assert(lines.take(i + 1).drop_last() =~= lines.take(i));
    lemma_load_prefix_none(lines, i + 1);
}

} // verus!
