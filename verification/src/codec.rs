//! Encoding of portable text into the null-terminated wide (UTF-16) form that
//! the host dialog subsystem consumes.

use vstd::prelude::*;

verus! {

/// The UTF-16 code units of a single character: one unit for a character in
/// the basic plane, a surrogate pair for anything above it.
pub open spec fn wide_units_of_char(c: char) -> Seq<u16> {
    let u = c as int;
    if u < 0x10000 {
        seq![u as u16]
    } else {
        seq![
            (0xD800 + (u - 0x10000) / 0x400) as u16,
            (0xDC00 + (u - 0x10000) % 0x400) as u16,
        ]
    }
}

/// The UTF-16 code units of a character sequence, in order.
pub open spec fn wide_of(s: Seq<char>) -> Seq<u16>
    decreases s.len(),
{
    if s.len() == 0 {
        Seq::<u16>::empty()
    } else {
        wide_units_of_char(s[0]) + wide_of(s.subrange(1, s.len() as int))
    }
}

/// Appending one character appends exactly its code units.
pub proof fn lemma_wide_of_push(s: Seq<char>, c: char)
    ensures
        wide_of(s.push(c)) == wide_of(s) + wide_units_of_char(c),
    decreases s.len(),
{
    if s.len() == 0 {
        assert(s.push(c)[0] == c);
        assert(s.push(c).subrange(1, 1) =~= Seq::<char>::empty());
        assert(wide_of(s.push(c)) == wide_units_of_char(c) + wide_of(Seq::<char>::empty()));
        assert(wide_of(s.push(c)) =~= wide_of(s) + wide_units_of_char(c));
    } else {
        assert(s.push(c).subrange(1, s.len() as int + 1) =~= s.subrange(1, s.len() as int).push(c));
        lemma_wide_of_push(s.subrange(1, s.len() as int), c);
        assert(wide_of(s.push(c)) =~= wide_of(s) + wide_units_of_char(c));
    }
}

pub struct FileDialogUtils;

impl FileDialogUtils {
    /// Encodes text as null-terminated UTF-16, the form the host dialog
    /// subsystem expects for titles, folder names and filter fields.
    pub fn to_win32_wide(s: &str) -> (r: Vec<u16>)
        ensures
            r@ == wide_of(s@).push(0u16),
    {
        let n = s.unicode_len();
        let mut r: Vec<u16> = Vec::new();
        let mut i: usize = 0;
        while i < n
            invariant
                i <= n,
                n == s@.len(),
                r@ == wide_of(s@.subrange(0, i as int)),
            decreases n - i,
        {
            let c = s.get_char(i);
            let u = c as u32;
            if u < 0x10000 {
                r.push(u as u16);
            } else {
                let v = u - 0x10000;
                r.push((0xD800 + v / 0x400) as u16);
                r.push((0xDC00 + v % 0x400) as u16);
            }
            proof {
                lemma_wide_of_push(s@.subrange(0, i as int), s@[i as int]);
                assert(s@.subrange(0, i as int).push(s@[i as int]) =~= s@.subrange(
                    0,
                    i as int + 1,
                ));
                assert(r@ =~= wide_of(s@.subrange(0, i as int + 1)));
            }
            i += 1;
        }
        proof {
            assert(s@.subrange(0, n as int) =~= s@);
        }
        r.push(0u16);
        r
    }
}

} // verus!
