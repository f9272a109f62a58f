//! Eight 4-bit lanes packed into one 32-bit word.
//!
//! Lane `p` occupies bits `4p .. 4p + 3`. Everything the rest of the crate
//! knows about bit operations is stated here, lane by lane.
use vstd::prelude::*;

verus! {

/// The value held in lane `p` of `w`.
pub open spec fn lane(w: u32, p: u32) -> u32 {
    (w >> (4 * p)) & 0xF
}

/// The value held in lane `p` of `w`, for a position counted in `int`.
pub open spec fn lane_at(w: u32, p: int) -> nat {
    lane(w, p as u32) as nat
}

/// A word is determined by its eight lanes.
pub proof fn lemma_lanes_determine_word(a: u32, b: u32)
    by (bit_vector)
    requires
        lane(a, 0) == lane(b, 0),
        lane(a, 1) == lane(b, 1),
        lane(a, 2) == lane(b, 2),
        lane(a, 3) == lane(b, 3),
        lane(a, 4) == lane(b, 4),
        lane(a, 5) == lane(b, 5),
        lane(a, 6) == lane(b, 6),
        lane(a, 7) == lane(b, 7),
    ensures
        a == b,
{
}

/// Every lane holds a value below sixteen.
pub proof fn lemma_lane_bound(w: u32, p: u32)
    by (bit_vector)
    ensures
        lane(w, p) < 16,
{
}

/// XOR-ing the difference of two values into either one yields the other,
/// and the difference of two lane values fits in a lane.
pub proof fn lemma_xor_exchange(a: u32, b: u32)
    by (bit_vector)
    ensures
        a ^ (a ^ b) == b,
        b ^ (a ^ b) == a,
        a < 16 && b < 16 ==> (a ^ b) < 16,
{
}

/// XOR-ing a value shifted to lane `p` changes that lane and no other.
proof fn lemma_flip(w: u32, p: u32, d: u32, q: u32)
    by (bit_vector)
    requires
        p < 8,
        q < 8,
        d < 16,
    ensures
        lane(w ^ (d << (4 * p)), q) == (if q == p {
            lane(w, p) ^ d
        } else {
            lane(w, q)
        }),
{
}

/// Rotating a word by eight bits moves every lane two places round.
proof fn lemma_spin(w: u32, q: u32)
    by (bit_vector)
    requires
        q < 8,
    ensures
        lane((w << 8) | (w >> 24), q) == lane(w, ((q + 6) % 8) as u32),
        lane((w >> 8) | (w << 24), q) == lane(w, ((q + 2) % 8) as u32),
{
}

/// Reads lane `p` of `w`.
pub fn get_lane(w: u32, p: usize) -> (v: u32)
    requires
        p < 8,
    ensures
        v == lane(w, p as u32),
        v < 16,
{
    proof {
        lemma_lane_bound(w, p as u32);
    }
    (w >> (p * 4)) & 0xF
}

/// XORs `d` into lane `p` of `w`, leaving the other lanes as they are.
pub fn xor_lane(w: u32, p: usize, d: u32) -> (r: u32)
    requires
        p < 8,
        d < 16,
    ensures
        forall|q: u32|
            q < 8 ==> #[trigger] lane(r, q) == (if q == p {
                lane(w, q) ^ d
            } else {
                lane(w, q)
            }),
{
    let r = w ^ (d << (p * 4));
    proof {
        assert forall|q: u32| q < 8 implies #[trigger] lane(r, q) == (if q == p {
            lane(w, q) ^ d
        } else {
            lane(w, q)
        }) by {
            lemma_flip(w, p as u32, d, q);
        }
    }
    r
}

/// Rotates the ring of lanes by two places: towards higher lanes when
/// `up` is set, towards lower lanes otherwise.
pub fn spin(w: u32, up: bool) -> (r: u32)
    ensures
        forall|q: u32|
            q < 8 ==> #[trigger] lane(r, q) == lane(
                w,
                if up {
                    ((q + 6) % 8) as u32
                } else {
                    ((q + 2) % 8) as u32
                },
            ),
{
    proof {
        assert forall|q: u32| q < 8 implies lane((w << 8) | (w >> 24), q) == lane(
            w,
            ((q + 6) % 8) as u32,
        ) && lane((w >> 8) | (w << 24), q) == lane(w, ((q + 2) % 8) as u32) by {
            lemma_spin(w, q);
        }
    }
    if up {
        (w << 8) | (w >> 24)
    } else {
        (w >> 8) | (w << 24)
    }
}

} // verus!
