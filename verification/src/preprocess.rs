//! Building the fixed-length id and mask windows that a tokenized text is
//! marshalled into before it becomes tensor data: a start marker, the word
//! ids that fit, an end marker, and padding up to the window length.

use vstd::prelude::*;

verus! {

/// How many word ids fit in a window of `max_length` beside the start and
/// end markers.
pub open spec fn fitted_len(word_count: nat, max_length: nat) -> nat
    recommends
        max_length >= 2,
{
    if word_count < max_length - 2 {
        word_count
    } else {
        (max_length - 2) as nat
    }
}

/// Lay `word_ids` out in a window of exactly `max_length` positions:
/// `start_id` first, then the word ids that fit, then `end_id`, then
/// `pad_id` up to the end. The mask holds `1` for every occupied position
/// (markers included) and `0` for every padded one. A window shorter than
/// the two markers cannot be laid out, hence the bound on `max_length`.
pub fn pad_and_mask(
    word_ids: &Vec<i32>,
    pad_id: i32,
    start_id: i32,
    end_id: i32,
    max_length: usize,
) -> (r: (Vec<i32>, Vec<i32>))
    requires
        max_length >= 2,
    ensures
        ({
            let ids = r.0@;
            let masks = r.1@;
            let k = fitted_len(word_ids@.len(), max_length as nat) as int;
            &&& ids.len() == max_length
            &&& masks.len() == max_length
            &&& ids[0] == start_id
            &&& masks[0] == 1
            &&& forall|j: int| 1 <= j <= k ==> ids[j] == word_ids@[j - 1] && masks[j] == 1
            &&& ids[k + 1] == end_id
            &&& masks[k + 1] == 1
            &&& forall|j: int| k + 2 <= j < max_length ==> ids[j] == pad_id && masks[j] == 0
        }),
{
    let mut ids: Vec<i32> = Vec::new();
    let mut masks: Vec<i32> = Vec::new();
    ids.push(start_id);
    masks.push(1);
    let k = if word_ids.len() < max_length - 2 {
        word_ids.len()
    } else {
        max_length - 2
    };
    let mut i: usize = 0;
    while i < k
        invariant
            k == fitted_len(word_ids@.len(), max_length as nat),
            k <= word_ids@.len(),
            i <= k,
            ids@.len() == i + 1,
            masks@.len() == i + 1,
            ids@[0] == start_id,
            masks@[0] == 1,
            forall|j: int| 1 <= j <= i ==> ids@[j] == word_ids@[j - 1] && masks@[j] == 1,
        decreases k - i,
    {
        ids.push(word_ids[i]);
        masks.push(1);
        i = i + 1;
    }
    ids.push(end_id);
    masks.push(1);
    while ids.len() < max_length
        invariant
            max_length >= 2,
            k == fitted_len(word_ids@.len(), max_length as nat),
            k + 2 <= ids@.len() <= max_length,
            masks@.len() == ids@.len(),
            ids@[0] == start_id,
            masks@[0] == 1,
            forall|j: int| 1 <= j <= k ==> ids@[j] == word_ids@[j - 1] && masks@[j] == 1,
            ids@[k + 1] == end_id,
            masks@[k + 1] == 1,
            forall|j: int| k + 2 <= j < ids@.len() ==> ids@[j] == pad_id && masks@[j] == 0,
        decreases max_length - ids@.len(),
    {
        ids.push(pad_id);
        masks.push(0);
    }
    (ids, masks)
}

} // verus!
