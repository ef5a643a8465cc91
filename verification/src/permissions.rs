//! Permission triads and the nine-bit permission mask.
//!
//! A mask holds the low nine bits of a POSIX mode word; each class of the
//! mask (user, group, other) decodes to a triad of read/write/execute bits,
//! and a triad renders as three characters drawn from `r`, `w`, `x`, `-`.

use vstd::prelude::*;

verus! {

/// One permission triad: the low three bits hold read (4), write (2),
/// execute (1).
#[derive(Clone, Copy, Debug, PartialEq, Eq, Structural)]
pub struct FilePermissions {
    pub bits: u32,
}

/// A nine-bit permission mask: the user, group and other triads packed
/// together, always confined to the low nine bits.
#[derive(Clone, Copy, Debug, PartialEq, Eq, Structural)]
pub struct PermissionsMask {
    pub bits: u32,
}

/// The triad extracted from `mask` at the given shift: 6 selects the user
/// class, 3 the group class, 0 the other class.
pub open spec fn triad_bits(mask: u32, shift: u32) -> u32 {
    (mask >> shift) & 0o7
}

/// The three characters a triad renders to.
pub open spec fn render_triad_spec(b: u32) -> Seq<char> {
    seq![
        if b & 0o4 != 0 { 'r' } else { '-' },
        if b & 0o2 != 0 { 'w' } else { '-' },
        if b & 0o1 != 0 { 'x' } else { '-' },
    ]
}

/// The nine characters a mask renders to: user, then group, then other.
pub open spec fn render_mask_spec(mask: u32) -> Seq<char> {
    render_triad_spec(triad_bits(mask, 6)) + render_triad_spec(triad_bits(mask, 3))
        + render_triad_spec(triad_bits(mask, 0))
}

impl FilePermissions {
    /// A triad is well formed when only the low three bits are set.
    pub open spec fn wf(self) -> bool {
        self.bits <= 0o7
    }

    /// Builds a triad from the low three bits of `v`.
    pub fn build(v: u32) -> (r: Self)
        ensures
            r.bits == v & 0o7,
            r.wf(),
    {
        proof {
            assert(v & 0o7 <= 0o7) by (bit_vector);
        }
        FilePermissions { bits: v & 0o7 }
    }

    /// The triad holding every bit set in either operand.
    pub fn union(self, other: Self) -> (r: Self)
        ensures
            r.bits == self.bits | other.bits,
    {
        FilePermissions { bits: self.bits | other.bits }
    }

    /// Renders the triad as its three characters.
    pub fn render(&self) -> (s: String)
        ensures
            s@ == render_triad_spec(self.bits),
    {
        let mut s = String::new();
        if self.bits & 0o4 != 0 {
            s.append("r");
        } else {
            s.append("-");
        }
        if self.bits & 0o2 != 0 {
            s.append("w");
        } else {
            s.append("-");
        }
        if self.bits & 0o1 != 0 {
            s.append("x");
        } else {
            s.append("-");
        }
        proof {
            reveal_strlit("r");
            reveal_strlit("w");
            reveal_strlit("x");
            reveal_strlit("-");
            assert(s@ =~= render_triad_spec(self.bits));
        }
        s
    }
}

impl PermissionsMask {
    /// A mask is well formed when no bit outside the low nine is set.
    pub open spec fn wf(self) -> bool {
        self.bits <= 0o777
    }

    /// Builds a mask from an arbitrary mode word, truncating it to the low
    /// nine bits; this is total, so any mode word yields a valid mask.
    pub fn build(v: u32) -> (r: Self)
        ensures
            r.bits == v & 0o777,
            r.wf(),
    {
        proof {
            assert(v & 0o777 <= 0o777) by (bit_vector);
        }
        PermissionsMask { bits: v & 0o777 }
    }

    /// The user-class triad of the mask.
    pub fn user(&self) -> (r: FilePermissions)
        ensures
            r.bits == triad_bits(self.bits, 6),
            r.wf(),
    {
        let b = self.bits;
        proof {
            assert((b >> 6u32) & 0o7 <= 0o7) by (bit_vector);
        }
        FilePermissions { bits: (b >> 6) & 0o7 }
    }

    /// The group-class triad of the mask.
    pub fn group(&self) -> (r: FilePermissions)
        ensures
            r.bits == triad_bits(self.bits, 3),
            r.wf(),
    {
        let b = self.bits;
        proof {
            assert((b >> 3u32) & 0o7 <= 0o7) by (bit_vector);
        }
        FilePermissions { bits: (b >> 3) & 0o7 }
    }

    /// The other-class triad of the mask.
    pub fn other(&self) -> (r: FilePermissions)
        ensures
            r.bits == triad_bits(self.bits, 0),
            r.wf(),
    {
        let b = self.bits;
        proof {
            assert((b >> 0u32) & 0o7 <= 0o7) by (bit_vector);
        }
        FilePermissions { bits: (b >> 0) & 0o7 }
    }

    /// Renders the mask as nine characters: user, group, other.
    pub fn render(&self) -> (s: String)
        ensures
            s@ == render_mask_spec(self.bits),
    {
        let mut s = self.user().render();
        let g = self.group().render();
        let o = self.other().render();
        s.append(g.as_str());
        s.append(o.as_str());
        s
    }
}

/// Law: decoding the other class ignores everything above the low three
/// bits, so masking a mode word with 0o007 first changes nothing.
pub proof fn lemma_decode_other_masked(m: u32)
    ensures
        triad_bits(m & 0o007, 0) == triad_bits(m, 0),
{
    assert(((m & 0o007) >> 0u32) & 0o7 == (m >> 0u32) & 0o7) by (bit_vector);
}

/// Law: whatever the mode word, the rendered mask has exactly nine
/// characters and each one is `r`, `w`, `x` or `-`.
pub proof fn lemma_render_mask_shape(m: u32)
    ensures
        render_mask_spec(m).len() == 9,
        forall|i: int|
            0 <= i < 9 ==> {
                let c = #[trigger] render_mask_spec(m)[i];
                c == 'r' || c == 'w' || c == 'x' || c == '-'
            },
{
    let s = render_mask_spec(m);
    assert(s.len() == 9);
    assert forall|i: int| 0 <= i < 9 implies {
        let c = #[trigger] s[i];
        c == 'r' || c == 'w' || c == 'x' || c == '-'
    } by {
        let u = render_triad_spec(triad_bits(m, 6));
        let g = render_triad_spec(triad_bits(m, 3));
        let o = render_triad_spec(triad_bits(m, 0));
        if i < 3 {
            assert(s[i] == u[i]);
        } else if i < 6 {
            assert(s[i] == g[i - 3]);
        } else {
            assert(s[i] == o[i - 6]);
        }
    }
}

} // verus!
