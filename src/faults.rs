use vstd::prelude::*;

verus! {

/// Number of entries in the fault table.
pub const FAULT_COUNT: usize = 11;

/// Bit position of fault table entry `i`.
pub open spec fn fault_bit(i: int) -> u32 {
    if i == 0 {
        0
    } else if i == 1 {
        1
    } else if i == 2 {
        2
    } else if i == 3 {
        3
    } else if i == 4 {
        4
    } else if i == 5 {
        5
    } else if i == 6 {
        7
    } else if i == 7 {
        8
    } else if i == 8 {
        9
    } else if i == 9 {
        14
    } else {
        16
    }
}

/// Name of fault table entry `i`.
pub open spec fn fault_name(i: int) -> Seq<char> {
    if i == 0 {
        "Over-temperature (>145\u{b0}C)"@
    } else if i == 1 {
        "Driver chip fault"@
    } else if i == 2 {
        "Under-voltage (<12V)"@
    } else if i == 3 {
        "Over-voltage (>60V)"@
    } else if i == 4 {
        "Phase B overcurrent"@
    } else if i == 5 {
        "Phase C overcurrent"@
    } else if i == 6 {
        "Encoder not calibrated"@
    } else if i == 7 {
        "Hardware identification fault"@
    } else if i == 8 {
        "Position init fault"@
    } else if i == 9 {
        "Stall overload protection"@
    } else {
        "Phase A overcurrent"@
    }
}

/// Bit `bit` of `word` is set.
pub open spec fn bit_set(word: u32, bit: u32) -> bool {
    (word >> bit) & 1 == 1
}

/// Names of the faults among the first `k` table entries whose bit is set in `word`, in
/// table order.
pub open spec fn matched_faults(word: u32, k: int) -> Seq<Seq<char>>
    decreases k,
{
    if k <= 0 {
        Seq::empty()
    } else if bit_set(word, fault_bit(k - 1)) {
        matched_faults(word, k - 1).push(fault_name(k - 1))
    } else {
        matched_faults(word, k - 1)
    }
}

/// A fault word and the names of the faults it reports.
#[derive(Clone, Debug)]
pub struct FaultStatus {
    pub raw: u32,
    pub faults: Vec<String>,
}

fn fault_entry(i: usize) -> (r: (u32, &'static str))
    requires
        i < FAULT_COUNT,
    ensures
        r.0 == fault_bit(i as int),
        r.1@ == fault_name(i as int),
{
    match i {
        0 => (0, "Over-temperature (>145\u{b0}C)"),
        1 => (1, "Driver chip fault"),
        2 => (2, "Under-voltage (<12V)"),
        3 => (3, "Over-voltage (>60V)"),
        4 => (4, "Phase B overcurrent"),
        5 => (5, "Phase C overcurrent"),
        6 => (7, "Encoder not calibrated"),
        7 => (8, "Hardware identification fault"),
        8 => (9, "Position init fault"),
        9 => (14, "Stall overload protection"),
        _ => (16, "Phase A overcurrent"),
    }
}

fn test_bit(word: u32, bit: u32) -> (r: bool)
    requires
        bit < 32,
    ensures
        r == bit_set(word, bit),
{
    let r = word & (1u32 << bit) != 0;
    assert(r == ((word >> bit) & 1 == 1)) by (bit_vector)
        requires
            bit < 32,
            r == (word & (1u32 << bit) != 0),
    ;
    r
}

/// Names the faults set in `fault_word`, in table order; bits outside the table are ignored.
pub fn decode_faults(fault_word: u32) -> (r: FaultStatus)
    ensures
        r.raw == fault_word,
        r.faults@.map_values(|s: String| s@) == matched_faults(fault_word, FAULT_COUNT as int),
{
    let mut faults: Vec<String> = Vec::new();
    let mut i: usize = 0;
    while i < FAULT_COUNT
        invariant
            i <= FAULT_COUNT,
            faults@.map_values(|s: String| s@) == matched_faults(fault_word, i as int),
        decreases FAULT_COUNT - i,
    {
        let (bit, name) = fault_entry(i);
        assert(bit < 32);
        if test_bit(fault_word, bit) {
            let ghost before = faults@;
            faults.push(String::from_str(name));
            assert(faults@.map_values(|s: String| s@) =~= before.map_values(|s: String| s@).push(
                name@,
            ));
        }
        i = i + 1;
    }
    FaultStatus { raw: fault_word, faults }
}

} // verus!
