//! Turning stored values into the text of a column.

use vstd::prelude::*;
use vstd::string::*;
use crate::text::{decimal, integer_to_string};

verus! {

/// The position of the first code at or after `from` that indexes none of
/// `categories` categories, or the length of `codes` if there is none.
pub open spec fn first_stray(codes: Seq<u32>, categories: nat, from: int) -> int
    decreases codes.len() - from,
{
    if from < 0 || from >= codes.len() {
        codes.len() as int
    } else if codes[from] >= categories {
        from
    } else {
        first_stray(codes, categories, from + 1)
    }
}

/// The category of each code, in order; or the first code that indexes no
/// category.
pub open spec fn looked_up(categories: Seq<Seq<char>>, codes: Seq<u32>) -> Result<
    Seq<Seq<char>>,
    u32,
> {
    let stray = first_stray(codes, categories.len(), 0);
    if stray < codes.len() {
        Err(codes[stray])
    } else {
        Ok(Seq::new(codes.len(), |i: int| categories[codes[i] as int]))
    }
}

/// The decimal text of each integer, in order.
pub open spec fn numerals(values: Seq<i64>) -> Seq<Seq<char>> {
    Seq::new(values.len(), |i: int| decimal(values[i] as int))
}

/// `first_stray` finds the first code out of range: every code before it, from
/// `from` on, indexes a category, and the code at it, if there is one, does not.
pub proof fn lemma_first_stray(codes: Seq<u32>, categories: nat, from: int)
    requires
        0 <= from <= codes.len(),
    ensures
        from <= first_stray(codes, categories, from) <= codes.len(),
        forall|j: int| from <= j < first_stray(codes, categories, from) ==> codes[j] < categories,
        first_stray(codes, categories, from) < codes.len() ==> codes[first_stray(
            codes,
            categories,
            from,
        )] >= categories,
    decreases codes.len() - from,
{
    if from < codes.len() && codes[from] < categories {
        lemma_first_stray(codes, categories, from + 1);
    }
}

/// Where every code from the start up to `upto` indexes a category, the search
/// for the first stray code may as well begin at `upto`.
pub proof fn lemma_first_stray_skips(codes: Seq<u32>, categories: nat, upto: int)
    requires
        0 <= upto <= codes.len(),
        forall|j: int| 0 <= j < upto ==> codes[j] < categories,
    ensures
        first_stray(codes, categories, 0) == first_stray(codes, categories, upto),
    decreases upto,
{
    if upto > 0 {
        lemma_first_stray_skips(codes, categories, upto - 1);
    }
}

/// A look-up succeeds exactly when every code indexes a category.
pub proof fn lemma_looked_up_ok(categories: Seq<Seq<char>>, codes: Seq<u32>)
    ensures
        looked_up(categories, codes) is Ok <==> forall|j: int|
            0 <= j < codes.len() ==> codes[j] < categories.len(),
{
    lemma_first_stray(codes, categories.len(), 0);
}

/// Looking codes up in two parts gives what looking them all up gives: both
/// parts succeed exactly when the whole does, and their categories, one part
/// after the other, are those of the whole.
pub proof fn lemma_looked_up_splits(categories: Seq<Seq<char>>, codes: Seq<u32>, at: int)
    requires
        0 <= at <= codes.len(),
    ensures
        looked_up(categories, codes) is Ok <==> looked_up(categories, codes.take(at)) is Ok
            && looked_up(categories, codes.skip(at)) is Ok,
        looked_up(categories, codes) is Ok ==> looked_up(categories, codes)->Ok_0 == looked_up(
            categories,
            codes.take(at),
        )->Ok_0 + looked_up(categories, codes.skip(at))->Ok_0,
{
    let head = codes.take(at);
    let tail = codes.skip(at);
    lemma_looked_up_ok(categories, codes);
    lemma_looked_up_ok(categories, head);
    lemma_looked_up_ok(categories, tail);
    if looked_up(categories, codes) is Ok {
        assert forall|j: int| 0 <= j < head.len() implies head[j] < categories.len() by {
            assert(head[j] == codes[j]);
        }
        assert forall|j: int| 0 <= j < tail.len() implies tail[j] < categories.len() by {
            assert(tail[j] == codes[j + at]);
        }
        assert(looked_up(categories, codes)->Ok_0 =~= looked_up(categories, head)->Ok_0
            + looked_up(categories, tail)->Ok_0);
    }
    if looked_up(categories, head) is Ok && looked_up(categories, tail) is Ok {
        assert forall|j: int| 0 <= j < codes.len() implies codes[j] < categories.len() by {
            if j < at {
                assert(head[j] == codes[j]);
            } else {
                assert(tail[j - at] == codes[j]);
            }
        }
    }
}

/// Looks up the category of each of the codes `start..end`.
///
/// Fails with the first code of that range that indexes no category; nothing
/// of the range is returned then.
pub fn decode_codes(categories: &Vec<String>, codes: &Vec<u32>, start: usize, end: usize) -> (out:
    Result<Vec<String>, u32>)
    requires
        start <= end <= codes.len(),
    ensures
        match looked_up(categories.deep_view(), codes@.subrange(start as int, end as int)) {
            Ok(texts) => out matches Ok(v) && v.deep_view() == texts,
            Err(code) => out == Err::<Vec<String>, u32>(code),
        },
{
    let ghost wanted = codes@.subrange(start as int, end as int);
    let ghost table = categories.deep_view();
    let mut texts: Vec<String> = Vec::new();
    let mut i: usize = start;
    while i < end
        invariant
            start <= i <= end <= codes.len(),
            wanted == codes@.subrange(start as int, end as int),
            table == categories.deep_view(),
            texts.len() == i - start,
            forall|j: int| 0 <= j < i - start ==> wanted[j] < table.len(),
            forall|j: int| 0 <= j < i - start ==> (#[trigger] texts[j])@ == table[wanted[j] as int],
        decreases end - i,
    {
        let code = codes[i];
        proof {
            lemma_first_stray_skips(wanted, table.len(), i - start);
        }
        if code as usize >= categories.len() {
            return Err(code);
        }
        texts.push(categories[code as usize].clone());
        i = i + 1;
    }
    proof {
        lemma_first_stray_skips(wanted, table.len(), wanted.len() as int);
        assert(texts.deep_view() =~= Seq::new(wanted.len(), |i: int| table[wanted[i] as int]));
    }
    Ok(texts)
}

/// Writes each integer in base ten.
pub fn decode_integers(values: &Vec<i64>) -> (texts: Vec<String>)
    ensures
        texts.deep_view() == numerals(values@),
{
    let mut texts: Vec<String> = Vec::new();
    let mut i: usize = 0;
    while i < values.len()
        invariant
            i <= values.len(),
            texts.len() == i,
            forall|j: int| 0 <= j < i ==> (#[trigger] texts[j])@ == decimal(values[j] as int),
        decreases values.len() - i,
    {
        texts.push(integer_to_string(values[i]));
        i = i + 1;
    }
    proof {
        assert(texts.deep_view() =~= numerals(values@));
    }
    texts
}

} // verus!
