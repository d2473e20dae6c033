//! Home-row-first letter assignment for the window snapshot.
use vstd::prelude::*;
use crate::window_info::WindowInfo;

verus! {

/// Ergonomic letter order: the most recently used window gets 'a', the second 's', and so on.
pub const LETTER_SEQUENCE: [char; 26] = [
    'a', 's', 'd', 'f', 'g', 'h', 'j', 'k', 'l',
    'q', 'w', 'e', 'r', 't',
    'y', 'u', 'i', 'o', 'p',
    'z', 'x', 'c', 'v', 'b', 'n', 'm',
];

/// The letter that position `i` of the snapshot receives, if any.
pub open spec fn letter_for_index(i: int) -> Option<char> {
    if 0 <= i < 26 {
        Some(LETTER_SEQUENCE@[i])
    } else {
        None
    }
}

/// `w` with its letter replaced by `letter`.
pub open spec fn with_letter(w: WindowInfo, letter: Option<char>) -> WindowInfo {
    WindowInfo { letter, ..w }
}

/// The 26 letters of the sequence are distinct lowercase ASCII letters.
pub proof fn lemma_letter_sequence_distinct()
    ensures
        LETTER_SEQUENCE@.len() == 26,
        forall|i: int| 0 <= i < 26 ==> 'a' <= #[trigger] LETTER_SEQUENCE@[i] <= 'z',
        forall|i: int, j: int|
            0 <= i < 26 && 0 <= j < 26 && i != j ==> LETTER_SEQUENCE@[i] != LETTER_SEQUENCE@[j],
{
    let s = LETTER_SEQUENCE@;
    assert(s =~= seq![
        'a', 's', 'd', 'f', 'g', 'h', 'j', 'k', 'l',
        'q', 'w', 'e', 'r', 't',
        'y', 'u', 'i', 'o', 'p',
        'z', 'x', 'c', 'v', 'b', 'n', 'm',
    ]);
}

/// Assign letters to the windows in order; windows beyond position 26 receive none.
pub fn assign_letters(windows: &mut Vec<WindowInfo>)
    ensures
        final(windows)@.len() == old(windows)@.len(),
        forall|i: int| 0 <= i < old(windows)@.len() ==>
            #[trigger] final(windows)@[i] == with_letter(old(windows)@[i], letter_for_index(i)),
{
    let n = windows.len();
    let mut i: usize = 0;
    while i < n
        invariant
            n == windows@.len(),
            n == old(windows)@.len(),
            i <= n,
            forall|j: int| 0 <= j < i ==> #[trigger] windows@[j] == with_letter(old(windows)@[j], letter_for_index(j)),
            forall|j: int| i <= j < n ==> #[trigger] windows@[j] == old(windows)@[j],
        decreases n - i,
    {
        let letter: Option<char> = if i < 26 { Some(LETTER_SEQUENCE[i]) } else { None };
        windows[i].letter = letter;
        i += 1;
    }
}

/// Index of the first window carrying `letter`, if any.
pub fn find_by_letter(windows: &[WindowInfo], letter: char) -> (r: Option<usize>)
    ensures
        match r {
            Some(i) => i < windows@.len() && windows@[i as int].letter == Some(letter)
                && forall|j: int| 0 <= j < i ==> #[trigger] windows@[j].letter != Some(letter),
            None => forall|j: int| 0 <= j < windows@.len() ==> #[trigger] windows@[j].letter != Some(letter),
        },
{
    let mut i: usize = 0;
    while i < windows.len()
        invariant
            i <= windows@.len(),
            forall|j: int| 0 <= j < i ==> #[trigger] windows@[j].letter != Some(letter),
        decreases windows@.len() - i,
    {
        match windows[i].letter {
            Some(c) => {
                if c == letter {
                    return Some(i);
                }
            },
            None => {},
        }
        i += 1;
    }
    None
}

/// After letters are assigned, looking up the letter of position `i` (for `i < 26`)
/// finds exactly position `i`.
pub proof fn lemma_find_assigned_letter(assigned: Seq<WindowInfo>, unlettered: Seq<WindowInfo>, i: int)
    requires
        assigned.len() == unlettered.len(),
        forall|j: int| 0 <= j < unlettered.len() ==> #[trigger] assigned[j] == with_letter(unlettered[j], letter_for_index(j)),
        0 <= i < 26,
        i < assigned.len(),
    ensures
        assigned[i].letter == Some(LETTER_SEQUENCE@[i]),
        forall|j: int| 0 <= j < assigned.len() && j != i ==> #[trigger] assigned[j].letter != Some(LETTER_SEQUENCE@[i]),
{
    lemma_letter_sequence_distinct();
    assert(assigned[i] == with_letter(unlettered[i], letter_for_index(i)));
    assert forall|j: int| 0 <= j < assigned.len() && j != i implies #[trigger] assigned[j].letter != Some(LETTER_SEQUENCE@[i]) by {
        assert(assigned[j] == with_letter(unlettered[j], letter_for_index(j)));
    }
}

} // verus!
