//! Variable length integers (base 128, least significant group first)
//! as used by the protobuf wire format.
use vstd::prelude::*;

verus! {

/// The most bytes a varint of a `u64` can take.
pub const MAX_VARINT_LEN: usize = 10;

/// The bytes that encode `v`: seven bits per byte, lowest group first,
/// the high bit set on every byte but the last.
pub open spec fn varint_bytes(v: nat) -> Seq<u8>
    decreases v,
{
    if v < 128 {
        seq![v as u8]
    } else {
        seq![(v % 128 + 128) as u8] + varint_bytes(v / 128)
    }
}

/// Parses a varint from the front of `s`, reading at most `fuel` bytes;
/// when the last allowed byte is reached it may only hold the value 0 or 1.
/// Returns the value and the number of bytes read.
pub open spec fn parse_varint(s: Seq<u8>, fuel: nat) -> Option<(int, nat)>
    decreases fuel,
{
    if fuel == 0 || s.len() == 0 {
        None
    } else if s[0] < 128 {
        if fuel == 1 && s[0] > 1 {
            None
        } else {
            Some((s[0] as int, 1))
        }
    } else {
        match parse_varint(s.drop_first(), (fuel - 1) as nat) {
            Some((v, n)) => Some(((s[0] - 128) + 128 * v, n + 1)),
            None => None,
        }
    }
}

/// Reading a varint of a `u64` from the front of `s`.
pub open spec fn spec_read_varint(s: Seq<u8>) -> Option<(u64, nat)> {
    match parse_varint(s, MAX_VARINT_LEN as nat) {
        Some((v, n)) => Some((v as u64, n)),
        None => None,
    }
}

/// One more than the largest value `fuel` bytes can carry.
pub open spec fn fuel_bound(fuel: nat) -> int
    decreases fuel,
{
    if fuel <= 1 {
        2
    } else {
        128 * fuel_bound((fuel - 1) as nat)
    }
}

pub proof fn lemma_fuel_bound_ten()
    ensures
        fuel_bound(10) == 0x1_0000_0000_0000_0000int,
{
    reveal_with_fuel(fuel_bound, 11);
}

pub proof fn lemma_fuel_bound_grows(fuel: nat)
    ensures
        fuel >= 2 ==> fuel_bound(fuel) >= 256,
        fuel_bound(fuel) >= 2,
    decreases fuel,
{
    if fuel > 1 {
        lemma_fuel_bound_grows((fuel - 1) as nat);
    }
}

/// What `parse_varint` gives back is in range and reads at least one and at
/// most `fuel` bytes of `s`.
pub proof fn lemma_parse_varint_bounds(s: Seq<u8>, fuel: nat)
    ensures
        parse_varint(s, fuel) matches Some((v, n)) ==> {
            &&& 0 <= v < fuel_bound(fuel)
            &&& 1 <= n <= fuel
            &&& n <= s.len()
        },
    decreases fuel,
{
    lemma_fuel_bound_grows(fuel);
    if fuel == 0 || s.len() == 0 {
    } else if s[0] < 128 {
    } else {
        lemma_parse_varint_bounds(s.drop_first(), (fuel - 1) as nat);
    }
}

/// A varint of a `u64` is read back as the same value.
pub proof fn lemma_parse_varint_bytes(v: nat, rest: Seq<u8>, fuel: nat)
    requires
        fuel >= 1,
        v < fuel_bound(fuel),
    ensures
        parse_varint(varint_bytes(v) + rest, fuel) == Some((v as int, varint_bytes(v).len())),
    decreases v,
{
    let s = varint_bytes(v) + rest;
    if v < 128 {
        assert(s[0] == v as u8);
        if fuel == 1 {
            assert(v < 2);
        }
    } else {
        if fuel <= 1 {
            assert(false);
        }
        let f1 = (fuel - 1) as nat;
        assert(v / 128 < fuel_bound(f1));
        lemma_parse_varint_bytes(v / 128, rest, f1);
        assert(s[0] == (v % 128 + 128) as u8);
        assert(s.drop_first() =~= varint_bytes(v / 128) + rest);
    }
}

/// Every varint of a `u64` takes between one and ten bytes.
pub proof fn lemma_varint_len(v: nat)
    ensures
        1 <= varint_bytes(v).len(),
        v < fuel_bound(10) ==> varint_bytes(v).len() <= 10,
{
    lemma_varint_len_fuel(v, 10);
}

proof fn lemma_varint_len_fuel(v: nat, fuel: nat)
    ensures
        1 <= varint_bytes(v).len(),
        fuel >= 1 && v < fuel_bound(fuel) ==> varint_bytes(v).len() <= fuel,
    decreases v,
{
    if v >= 128 {
        if fuel > 1 {
            lemma_varint_len_fuel(v / 128, (fuel - 1) as nat);
        } else {
            lemma_varint_len_fuel(v / 128, 0);
        }
    }
}

/// Reading back what `write_varint` wrote gives the value and its length,
/// whatever follows it.
pub proof fn law_varint_roundtrip(v: u64, rest: Seq<u8>)
    ensures
        spec_read_varint(varint_bytes(v as nat) + rest) == Some((v, varint_bytes(v as nat).len())),
{
    lemma_fuel_bound_ten();
    lemma_parse_varint_bytes(v as nat, rest, 10);
}

/// Appends the varint of `v` to `buf`.
pub fn write_varint(buf: &mut Vec<u8>, v: u64)
    ensures
        final(buf)@ == old(buf)@ + varint_bytes(v as nat),
{
    let mut cur = v;
    while cur >= 128
        invariant
            buf@ + varint_bytes(cur as nat) == old(buf)@ + varint_bytes(v as nat),
        decreases cur,
    {
        let ghost before = buf@;
        buf.push((cur % 128 + 128) as u8);
        assert(varint_bytes(cur as nat) == seq![(cur % 128 + 128) as u8] + varint_bytes(
            (cur / 128) as nat,
        ));
        assert(buf@ + varint_bytes((cur / 128) as nat) =~= before + varint_bytes(cur as nat));
        cur = cur / 128;
    }
    let ghost before = buf@;
    buf.push(cur as u8);
    assert(buf@ =~= before + varint_bytes(cur as nat));
}

/// The number of bytes `write_varint` appends for `v`.
pub fn varint_size(v: u64) -> (n: u64)
    ensures
        n == varint_bytes(v as nat).len(),
        1 <= n <= 10,
{
    proof {
        lemma_fuel_bound_ten();
        lemma_varint_len(v as nat);
    }
    let mut cur = v;
    let mut n: u64 = 1;
    while cur >= 128
        invariant
            n + varint_bytes(cur as nat).len() == varint_bytes(v as nat).len() + 1,
            varint_bytes(v as nat).len() <= 10,
            1 <= n,
        decreases cur,
    {
        proof {
            lemma_varint_len((cur / 128) as nat);
        }
        n = n + 1;
        cur = cur / 128;
    }
    n
}

fn parse_varint_at(s: &[u8], pos: usize, fuel: usize) -> (r: Option<(u64, usize)>)
    requires
        pos <= s@.len(),
        fuel <= 10,
    ensures
        match parse_varint(s@.skip(pos as int), fuel as nat) {
            Some((v, n)) => r == Some((v as u64, n as usize)),
            None => r is None,
        },
    decreases fuel,
{
    let ghost rem = s@.skip(pos as int);
    proof {
        lemma_parse_varint_bounds(rem, fuel as nat);
    }
    if fuel == 0 || pos >= s.len() {
        return None;
    }
    let b = s[pos];
    assert(rem[0] == b);
    if b < 128 {
        if fuel == 1 && b > 1 {
            None
        } else {
            Some((b as u64, 1))
        }
    } else {
        assert(rem.drop_first() =~= s@.skip(pos + 1));
        let inner = parse_varint_at(s, pos + 1, fuel - 1);
        proof {
            lemma_parse_varint_bounds(rem.drop_first(), (fuel - 1) as nat);
            lemma_fuel_bound_ten();
            lemma_fuel_bound_mono((fuel - 1) as nat, 9);
        }
        match inner {
            Some((v, n)) => {
                assert(v < fuel_bound(9));
                assert(fuel_bound(10) == 128 * fuel_bound(9));
                Some(((b - 128) as u64 + 128 * v, n + 1))
            },
            None => None,
        }
    }
}

proof fn lemma_fuel_bound_mono(a: nat, b: nat)
    requires
        a <= b,
    ensures
        fuel_bound(a) <= fuel_bound(b),
    decreases b,
{
    if a < b {
        lemma_fuel_bound_mono(a, (b - 1) as nat);
        lemma_fuel_bound_grows(b);
        if b > 1 {
            lemma_fuel_bound_grows((b - 1) as nat);
        }
    }
}

/// Reads a varint of a `u64` from `s` starting at `pos`; returns the value
/// and the number of bytes it took, or `None` if the bytes end before the
/// varint does or it does not fit in a `u64`.
pub fn read_varint(s: &[u8], pos: usize) -> (r: Option<(u64, usize)>)
    requires
        pos <= s@.len(),
    ensures
        match spec_read_varint(s@.skip(pos as int)) {
            Some((v, n)) => r matches Some((rv, rn)) && rv == v && rn == n,
            None => r is None,
        },
        r matches Some((_, n)) ==> 1 <= n <= 10 && pos + n <= s@.len(),
{
    proof {
        lemma_parse_varint_bounds(s@.skip(pos as int), 10);
    }
    parse_varint_at(s, pos, MAX_VARINT_LEN)
}

} // verus!
