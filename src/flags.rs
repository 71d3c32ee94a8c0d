//! Integer-backed sets of named bits: game modifiers and per-mode key masks.
//!
//! Every flag type shares one implementation, parametrised by a [`FlagKind`]
//! descriptor that gives its name table, its indexing convention and its name.
use vstd::prelude::*;
use vstd::string::StringExecFns;

verus! {

/// Descriptor of a flag type.
#[derive(Clone, Copy, Debug, PartialEq, Eq, Structural)]
pub enum FlagKind {
    Mods,
    Keys,
    TaikoKeys,
    ManiaKeys,
}

/// Number of entries in the kind's name table.
pub open spec fn flag_count(kind: FlagKind) -> nat {
    match kind {
        FlagKind::Mods => 32,
        FlagKind::Keys => 5,
        FlagKind::TaikoKeys => 4,
        FlagKind::ManiaKeys => 18,
    }
}

/// Whether the table's first entry names the value 0 rather than the lowest bit.
pub open spec fn zero_indexed(kind: FlagKind) -> bool {
    kind == FlagKind::Mods
}

/// The largest single-flag value, where the rendering scan starts.
pub open spec fn flag_max(kind: FlagKind) -> nat {
    if zero_indexed(kind) {
        pow2((flag_count(kind) - 2) as nat)
    } else {
        pow2((flag_count(kind) - 1) as nat)
    }
}

pub open spec fn pow2(n: nat) -> nat
    decreases n,
{
    if n == 0 {
        1
    } else {
        2 * pow2((n - 1) as nat)
    }
}

pub open spec fn set_name(kind: FlagKind) -> Seq<char> {
    match kind {
        FlagKind::Mods => "Mod"@,
        FlagKind::Keys => "Key"@,
        FlagKind::TaikoKeys => "KeyTaiko"@,
        FlagKind::ManiaKeys => "KeyMania"@,
    }
}

pub open spec fn flag_name(kind: FlagKind, i: nat) -> Seq<char> {
    match kind {
        FlagKind::Mods => mod_name(i),
        FlagKind::Keys => key_name(i),
        FlagKind::TaikoKeys => taiko_key_name(i),
        FlagKind::ManiaKeys => mania_key_name(i),
    }
}

pub open spec fn mod_name(i: nat) -> Seq<char> {
    if i == 0 { "NoMod"@ }
    else if i == 1 { "NoFail"@ }
    else if i == 2 { "Easy"@ }
    else if i == 3 { "TouchDevice"@ }
    else if i == 4 { "Hidden"@ }
    else if i == 5 { "HardRock"@ }
    else if i == 6 { "SuddenDeath"@ }
    else if i == 7 { "DoubleTime"@ }
    else if i == 8 { "Relax"@ }
    else if i == 9 { "HalfTime"@ }
    else if i == 10 { "Nightcore"@ }
    else if i == 11 { "Flashlight"@ }
    else if i == 12 { "Autoplay"@ }
    else if i == 13 { "SpunOut"@ }
    else if i == 14 { "Autopilot"@ }
    else if i == 15 { "Perfect"@ }
    else if i == 16 { "Key4"@ }
    else if i == 17 { "Key5"@ }
    else if i == 18 { "Key6"@ }
    else if i == 19 { "Key7"@ }
    else if i == 20 { "Key8"@ }
    else if i == 21 { "FadeIn"@ }
    else if i == 22 { "Random"@ }
    else if i == 23 { "Cinema"@ }
    else if i == 24 { "Target"@ }
    else if i == 25 { "Key9"@ }
    else if i == 26 { "KeyCoop"@ }
    else if i == 27 { "Key1"@ }
    else if i == 28 { "Key3"@ }
    else if i == 29 { "Key2"@ }
    else if i == 30 { "ScoreV2"@ }
    else { "Mirror"@ }
}

pub open spec fn key_name(i: nat) -> Seq<char> {
    if i == 0 { "M1"@ }
    else if i == 1 { "M2"@ }
    else if i == 2 { "K1"@ }
    else if i == 3 { "K2"@ }
    else { "SMOKE"@ }
}

pub open spec fn taiko_key_name(i: nat) -> Seq<char> {
    if i == 0 { "LEFT_DON"@ }
    else if i == 1 { "LEFT_KAT"@ }
    else if i == 2 { "RIGHT_DON"@ }
    else { "RIGHT_KAT"@ }
}

pub open spec fn mania_key_name(i: nat) -> Seq<char> {
    if i == 0 { "K1"@ }
    else if i == 1 { "K2"@ }
    else if i == 2 { "K3"@ }
    else if i == 3 { "K4"@ }
    else if i == 4 { "K5"@ }
    else if i == 5 { "K6"@ }
    else if i == 6 { "K7"@ }
    else if i == 7 { "K8"@ }
    else if i == 8 { "K9"@ }
    else if i == 9 { "K10"@ }
    else if i == 10 { "K11"@ }
    else if i == 11 { "K12"@ }
    else if i == 12 { "K13"@ }
    else if i == 13 { "K14"@ }
    else if i == 14 { "K15"@ }
    else if i == 15 { "K16"@ }
    else if i == 16 { "K17"@ }
    else { "K18"@ }
}

fn mod_name_text(i: usize) -> (r: &'static str)
    ensures
        r@ == mod_name(i as nat),
{
    if i == 0 { "NoMod" }
    else if i == 1 { "NoFail" }
    else if i == 2 { "Easy" }
    else if i == 3 { "TouchDevice" }
    else if i == 4 { "Hidden" }
    else if i == 5 { "HardRock" }
    else if i == 6 { "SuddenDeath" }
    else if i == 7 { "DoubleTime" }
    else if i == 8 { "Relax" }
    else if i == 9 { "HalfTime" }
    else if i == 10 { "Nightcore" }
    else if i == 11 { "Flashlight" }
    else if i == 12 { "Autoplay" }
    else if i == 13 { "SpunOut" }
    else if i == 14 { "Autopilot" }
    else if i == 15 { "Perfect" }
    else if i == 16 { "Key4" }
    else if i == 17 { "Key5" }
    else if i == 18 { "Key6" }
    else if i == 19 { "Key7" }
    else if i == 20 { "Key8" }
    else if i == 21 { "FadeIn" }
    else if i == 22 { "Random" }
    else if i == 23 { "Cinema" }
    else if i == 24 { "Target" }
    else if i == 25 { "Key9" }
    else if i == 26 { "KeyCoop" }
    else if i == 27 { "Key1" }
    else if i == 28 { "Key3" }
    else if i == 29 { "Key2" }
    else if i == 30 { "ScoreV2" }
    else { "Mirror" }
}

fn key_name_text(i: usize) -> (r: &'static str)
    ensures
        r@ == key_name(i as nat),
{
    if i == 0 { "M1" }
    else if i == 1 { "M2" }
    else if i == 2 { "K1" }
    else if i == 3 { "K2" }
    else { "SMOKE" }
}

fn taiko_key_name_text(i: usize) -> (r: &'static str)
    ensures
        r@ == taiko_key_name(i as nat),
{
    if i == 0 { "LEFT_DON" }
    else if i == 1 { "LEFT_KAT" }
    else if i == 2 { "RIGHT_DON" }
    else { "RIGHT_KAT" }
}

fn mania_key_name_text(i: usize) -> (r: &'static str)
    ensures
        r@ == mania_key_name(i as nat),
{
    if i == 0 { "K1" }
    else if i == 1 { "K2" }
    else if i == 2 { "K3" }
    else if i == 3 { "K4" }
    else if i == 4 { "K5" }
    else if i == 5 { "K6" }
    else if i == 6 { "K7" }
    else if i == 7 { "K8" }
    else if i == 8 { "K9" }
    else if i == 9 { "K10" }
    else if i == 10 { "K11" }
    else if i == 11 { "K12" }
    else if i == 12 { "K13" }
    else if i == 13 { "K14" }
    else if i == 14 { "K15" }
    else if i == 15 { "K16" }
    else if i == 16 { "K17" }
    else { "K18" }
}

/// The name of entry `i` of the kind's table.
pub fn flag_name_text(kind: FlagKind, i: usize) -> (r: &'static str)
    ensures
        r@ == flag_name(kind, i as nat),
{
    match kind {
        FlagKind::Mods => mod_name_text(i),
        FlagKind::Keys => key_name_text(i),
        FlagKind::TaikoKeys => taiko_key_name_text(i),
        FlagKind::ManiaKeys => mania_key_name_text(i),
    }
}

/// The kind's display name.
pub fn set_name_text(kind: FlagKind) -> (r: &'static str)
    ensures
        r@ == set_name(kind),
{
    match kind {
        FlagKind::Mods => "Mod",
        FlagKind::Keys => "Key",
        FlagKind::TaikoKeys => "KeyTaiko",
        FlagKind::ManiaKeys => "KeyMania",
    }
}

pub fn flag_count_of(kind: FlagKind) -> (r: usize)
    ensures
        r == flag_count(kind),
{
    match kind {
        FlagKind::Mods => 32,
        FlagKind::Keys => 5,
        FlagKind::TaikoKeys => 4,
        FlagKind::ManiaKeys => 18,
    }
}

pub fn is_zero_indexed(kind: FlagKind) -> (r: bool)
    ensures
        r == zero_indexed(kind),
{
    match kind {
        FlagKind::Mods => true,
        _ => false,
    }
}

pub fn flag_max_of(kind: FlagKind) -> (r: u64)
    ensures
        r == flag_max(kind),
{
    proof {
        reveal_with_fuel(pow2, 31);
    }
    match kind {
        FlagKind::Mods => 0x4000_0000,
        FlagKind::Keys => 16,
        FlagKind::TaikoKeys => 8,
        FlagKind::ManiaKeys => 0x2_0000,
    }
}

/// The names the rendering scan emits from single-flag value `max` down,
/// starting at table position `index` from the top, for remaining value `v`.
pub open spec fn scan(kind: FlagKind, v: nat, max: nat, index: nat) -> Seq<char>
    decreases flag_count(kind) - index,
{
    if index >= flag_count(kind) {
        Seq::empty()
    } else if v >= max {
        let name = flag_name(kind, (flag_count(kind) - index - 1) as nat);
        if v - max == 0 {
            name
        } else {
            name + "|"@ + scan(kind, (v - max) as nat, max / 2, index + 1)
        }
    } else {
        scan(kind, v, max / 2, index + 1)
    }
}

/// The value as the scan sees it: its 64-bit two's complement pattern.
pub open spec fn scan_value(value: int) -> nat {
    if value < 0 {
        (value + 0x1_0000_0000_0000_0000) as nat
    } else {
        value as nat
    }
}

/// The flag tokens of `value`: `0` alone for zero in a zero-indexed kind,
/// nothing for zero otherwise, else the names that the scan finds.
pub open spec fn flag_tokens(kind: FlagKind, value: int) -> Seq<char> {
    if value == 0 {
        if zero_indexed(kind) {
            "0"@
        } else {
            Seq::empty()
        }
    } else {
        scan(kind, scan_value(value), flag_max(kind), 0)
    }
}

pub open spec fn digit_char(d: nat) -> char {
    if d == 0 { '0' }
    else if d == 1 { '1' }
    else if d == 2 { '2' }
    else if d == 3 { '3' }
    else if d == 4 { '4' }
    else if d == 5 { '5' }
    else if d == 6 { '6' }
    else if d == 7 { '7' }
    else if d == 8 { '8' }
    else { '9' }
}

/// The decimal digits of `n`, most significant first.
pub open spec fn digits_text(n: nat) -> Seq<char>
    decreases n,
{
    if n < 10 {
        seq![digit_char(n)]
    } else {
        digits_text(n / 10) + seq![digit_char(n % 10)]
    }
}

/// `v` written in decimal, with a leading `-` when negative.
pub open spec fn decimal_text(v: int) -> Seq<char> {
    if v < 0 {
        "-"@ + digits_text((-v) as nat)
    } else {
        digits_text(v as nat)
    }
}

/// The rendering `<Name.FLAG_A|FLAG_B: N>` of `value`.
pub open spec fn flags_text(kind: FlagKind, value: int) -> Seq<char> {
    "<"@ + set_name(kind) + "."@ + flag_tokens(kind, value) + ": "@ + decimal_text(value) + ">"@
}

fn digit_str(d: u64) -> (r: &'static str)
    requires
        d < 10,
    ensures
        r@ == seq![digit_char(d as nat)],
{
    proof {
        reveal_strlit("0");
        reveal_strlit("1");
        reveal_strlit("2");
        reveal_strlit("3");
        reveal_strlit("4");
        reveal_strlit("5");
        reveal_strlit("6");
        reveal_strlit("7");
        reveal_strlit("8");
        reveal_strlit("9");
    }
    if d == 0 { "0" }
    else if d == 1 { "1" }
    else if d == 2 { "2" }
    else if d == 3 { "3" }
    else if d == 4 { "4" }
    else if d == 5 { "5" }
    else if d == 6 { "6" }
    else if d == 7 { "7" }
    else if d == 8 { "8" }
    else { "9" }
}

fn push_digits(out: &mut String, n: u64)
    ensures
        final(out)@ == old(out)@ + digits_text(n as nat),
    decreases n,
{
    if n >= 10 {
        push_digits(out, n / 10);
    }
    out.append(digit_str(n % 10));
    proof {
        if n >= 10 {
            assert(final(out)@ =~= old(out)@ + digits_text(n as nat));
        }
    }
}

/// Writes `v` in decimal.
pub fn decimal_string(v: i32) -> (r: String)
    ensures
        r@ == decimal_text(v as int),
{
    let mut out = String::new();
    if v < 0 {
        out.append("-");
        let m: i64 = -(v as i64);
        push_digits(&mut out, m as u64);
    } else {
        push_digits(&mut out, v as u64);
    }
    proof {
        assert(out@ =~= decimal_text(v as int));
    }
    out
}

/// Renders `value` as a set of the kind's flags, `<Name.FLAG_A|FLAG_B: N>`.
pub fn render_flags(kind: FlagKind, value: i32) -> (r: String)
    ensures
        r@ == flags_text(kind, value as int),
{
    let mut out = String::new();
    out.append("<");
    out.append(set_name_text(kind));
    out.append(".");
    let ghost head = out@;
    if value == 0 {
        if is_zero_indexed(kind) {
            out.append("0");
        }
    } else {
        let count = flag_count_of(kind);
        let mut max: u64 = flag_max_of(kind);
        let mut v: u64 = if value < 0 {
            let m: i64 = value as i64 + 0x7fff_ffff_ffff_ffff + 1;
            m as u64 + 0x8000_0000_0000_0000
        } else {
            value as u64
        };
        let ghost target = head + scan(kind, scan_value(value as int), flag_max(kind), 0);
        let mut index: usize = 0;
        let mut done = false;
        while index < count && !done
            invariant
                count == flag_count(kind),
                index <= count,
                done ==> out@ == target,
                !done ==> out@ + scan(kind, v as nat, max as nat, index as nat) == target,
            decreases count - index,
        {
            if v >= max {
                let name = flag_name_text(kind, count - index - 1);
                out.append(name);
                v = v - max;
                if v == 0 {
                    done = true;
                } else {
                    out.append("|");
                }
            }
            max = max / 2;
            index = index + 1;
        }
        proof {
            if !done {
                assert(out@ + Seq::<char>::empty() =~= out@);
            }
        }
    }
    out.append(": ");
    let digits = decimal_string(value);
    out.append(digits.as_str());
    out.append(">");
    proof {
        assert(out@ =~= flags_text(kind, value as int));
    }
    out
}


/// Buttons held in a standard-mode action: M1, M2, K1, K2, SMOKE from the lowest bit.
#[derive(Clone, Copy, Debug, PartialEq, Eq, PartialOrd, Ord, Hash, Structural)]
pub struct Key(pub i32);

impl Key {
    /// The descriptor of this flag type.
    pub const KIND: FlagKind = FlagKind::Keys;

    /// The set with exactly the bits of `value`, kept as given.
    pub fn new(value: i32) -> (r: Key)
        ensures
            r.0 == value,
    {
        Key(value)
    }

    pub fn value(&self) -> (r: i32)
        ensures
            r == self.0,
    {
        self.0
    }

    /// Bitwise exclusive or of the two values.
    pub fn xor(&self, other: &Key) -> (r: Key)
        ensures
            r.0 == self.0 ^ other.0,
    {
        Key(self.0 ^ other.0)
    }

    /// Bitwise and of the two values.
    pub fn and(&self, other: &Key) -> (r: Key)
        ensures
            r.0 == self.0 & other.0,
    {
        Key(self.0 & other.0)
    }

    /// Combines two sets by adding their values: a bit set in both carries.
    pub fn combine(&self, other: &Key) -> (r: Key)
        requires
            i32::MIN <= self.0 + other.0 <= i32::MAX,
        ensures
            r.0 == self.0 + other.0,
    {
        Key(self.0 + other.0)
    }

    /// The sum of the two values.
    pub fn add(&self, other: &Key) -> (r: i32)
        requires
            i32::MIN <= self.0 + other.0 <= i32::MAX,
        ensures
            r == self.0 + other.0,
    {
        self.0 + other.0
    }

    /// The difference of the two values.
    pub fn sub(&self, other: &Key) -> (r: i32)
        requires
            i32::MIN <= self.0 - other.0 <= i32::MAX,
        ensures
            r == self.0 - other.0,
    {
        self.0 - other.0
    }

    /// Whether any bit is set.
    pub fn is_set(&self) -> (r: bool)
        ensures
            r == (self.0 != 0),
    {
        self.0 != 0
    }

    /// The rendering `<Key.FLAG_A|FLAG_B: N>`, highest flag first.
    pub fn render(&self) -> (r: String)
        ensures
            r@ == flags_text(FlagKind::Keys, self.0 as int),
    {
        render_flags(FlagKind::Keys, self.0)
    }
}

/// Drum keys held in a taiko action: LEFT_DON, LEFT_KAT, RIGHT_DON, RIGHT_KAT from the lowest bit.
#[derive(Clone, Copy, Debug, PartialEq, Eq, PartialOrd, Ord, Hash, Structural)]
pub struct KeyTaiko(pub i32);

impl KeyTaiko {
    /// The descriptor of this flag type.
    pub const KIND: FlagKind = FlagKind::TaikoKeys;

    /// The set with exactly the bits of `value`, kept as given.
    pub fn new(value: i32) -> (r: KeyTaiko)
        ensures
            r.0 == value,
    {
        KeyTaiko(value)
    }

    pub fn value(&self) -> (r: i32)
        ensures
            r == self.0,
    {
        self.0
    }

    /// Bitwise exclusive or of the two values.
    pub fn xor(&self, other: &KeyTaiko) -> (r: KeyTaiko)
        ensures
            r.0 == self.0 ^ other.0,
    {
        KeyTaiko(self.0 ^ other.0)
    }

    /// Bitwise and of the two values.
    pub fn and(&self, other: &KeyTaiko) -> (r: KeyTaiko)
        ensures
            r.0 == self.0 & other.0,
    {
        KeyTaiko(self.0 & other.0)
    }

    /// Combines two sets by adding their values: a bit set in both carries.
    pub fn combine(&self, other: &KeyTaiko) -> (r: KeyTaiko)
        requires
            i32::MIN <= self.0 + other.0 <= i32::MAX,
        ensures
            r.0 == self.0 + other.0,
    {
        KeyTaiko(self.0 + other.0)
    }

    /// The sum of the two values.
    pub fn add(&self, other: &KeyTaiko) -> (r: i32)
        requires
            i32::MIN <= self.0 + other.0 <= i32::MAX,
        ensures
            r == self.0 + other.0,
    {
        self.0 + other.0
    }

    /// The difference of the two values.
    pub fn sub(&self, other: &KeyTaiko) -> (r: i32)
        requires
            i32::MIN <= self.0 - other.0 <= i32::MAX,
        ensures
            r == self.0 - other.0,
    {
        self.0 - other.0
    }

    /// Whether any bit is set.
    pub fn is_set(&self) -> (r: bool)
        ensures
            r == (self.0 != 0),
    {
        self.0 != 0
    }

    /// The rendering `<KeyTaiko.FLAG_A|FLAG_B: N>`, highest flag first.
    pub fn render(&self) -> (r: String)
        ensures
            r@ == flags_text(FlagKind::TaikoKeys, self.0 as int),
    {
        render_flags(FlagKind::TaikoKeys, self.0)
    }
}

/// Columns held in a mania action: K1 to K18 from the lowest bit.
#[derive(Clone, Copy, Debug, PartialEq, Eq, PartialOrd, Ord, Hash, Structural)]
pub struct KeyMania(pub i32);

impl KeyMania {
    /// The descriptor of this flag type.
    pub const KIND: FlagKind = FlagKind::ManiaKeys;

    /// The set with exactly the bits of `value`, kept as given.
    pub fn new(value: i32) -> (r: KeyMania)
        ensures
            r.0 == value,
    {
        KeyMania(value)
    }

    pub fn value(&self) -> (r: i32)
        ensures
            r == self.0,
    {
        self.0
    }

    /// Bitwise exclusive or of the two values.
    pub fn xor(&self, other: &KeyMania) -> (r: KeyMania)
        ensures
            r.0 == self.0 ^ other.0,
    {
        KeyMania(self.0 ^ other.0)
    }

    /// Bitwise and of the two values.
    pub fn and(&self, other: &KeyMania) -> (r: KeyMania)
        ensures
            r.0 == self.0 & other.0,
    {
        KeyMania(self.0 & other.0)
    }

    /// Combines two sets by adding their values: a bit set in both carries.
    pub fn combine(&self, other: &KeyMania) -> (r: KeyMania)
        requires
            i32::MIN <= self.0 + other.0 <= i32::MAX,
        ensures
            r.0 == self.0 + other.0,
    {
        KeyMania(self.0 + other.0)
    }

    /// The sum of the two values.
    pub fn add(&self, other: &KeyMania) -> (r: i32)
        requires
            i32::MIN <= self.0 + other.0 <= i32::MAX,
        ensures
            r == self.0 + other.0,
    {
        self.0 + other.0
    }

    /// The difference of the two values.
    pub fn sub(&self, other: &KeyMania) -> (r: i32)
        requires
            i32::MIN <= self.0 - other.0 <= i32::MAX,
        ensures
            r == self.0 - other.0,
    {
        self.0 - other.0
    }

    /// Whether any bit is set.
    pub fn is_set(&self) -> (r: bool)
        ensures
            r == (self.0 != 0),
    {
        self.0 != 0
    }

    /// The rendering `<KeyMania.FLAG_A|FLAG_B: N>`, highest flag first.
    pub fn render(&self) -> (r: String)
        ensures
            r@ == flags_text(FlagKind::ManiaKeys, self.0 as int),
    {
        render_flags(FlagKind::ManiaKeys, self.0)
    }
}

/// Game modifiers, one bit each: bit 0 is NoFail, bit 30 Mirror; the table
/// entry before them names the empty set.
#[derive(Clone, Copy, Debug, PartialEq, Eq, PartialOrd, Ord, Hash, Default, Structural)]
pub struct Mod(pub u32);

impl Mod {
    /// The descriptor of this flag type.
    pub const KIND: FlagKind = FlagKind::Mods;

    /// The set with exactly the bits of `value`, which must not be negative.
    pub fn new(value: i32) -> (r: Mod)
        requires
            value >= 0,
        ensures
            r.0 == value,
    {
        Mod(value as u32)
    }

    /// The set with the bit pattern of `value`, as a file stores it.
    pub fn from_bits(value: i32) -> (r: Mod)
        ensures
            r.0 == (if value < 0 { value + 0x1_0000_0000 } else { value as int }),
    {
        if value < 0 {
            Mod((value as i64 + 0x1_0000_0000) as u32)
        } else {
            Mod(value as u32)
        }
    }

    pub fn value(&self) -> (r: i32)
        requires
            self.0 <= i32::MAX,
        ensures
            r == self.0,
    {
        self.0 as i32
    }

    /// Bitwise exclusive or of the two values.
    pub fn xor(&self, other: &Mod) -> (r: Mod)
        ensures
            r.0 == self.0 ^ other.0,
    {
        Mod(self.0 ^ other.0)
    }

    /// Bitwise and of the two values.
    pub fn and(&self, other: &Mod) -> (r: Mod)
        ensures
            r.0 == self.0 & other.0,
    {
        Mod(self.0 & other.0)
    }

    /// Combines two sets by adding their values: a bit set in both carries.
    pub fn combine(&self, other: &Mod) -> (r: Mod)
        requires
            self.0 + other.0 <= u32::MAX,
        ensures
            r.0 == self.0 + other.0,
    {
        Mod(self.0 + other.0)
    }

    /// The sum of the two values.
    pub fn add(&self, other: &Mod) -> (r: i64)
        ensures
            r == self.0 + other.0,
    {
        self.0 as i64 + other.0 as i64
    }

    /// The difference of the two values.
    pub fn sub(&self, other: &Mod) -> (r: i64)
        ensures
            r == self.0 - other.0,
    {
        self.0 as i64 - other.0 as i64
    }

    /// Whether any bit is set.
    pub fn is_set(&self) -> (r: bool)
        ensures
            r == (self.0 != 0),
    {
        self.0 != 0
    }

    /// The rendering `<Mod.FLAG_A|FLAG_B: N>`, highest flag first.
    pub fn render(&self) -> (r: String)
        requires
            self.0 <= i32::MAX,
        ensures
            r@ == flags_text(FlagKind::Mods, self.0 as int),
    {
        render_flags(FlagKind::Mods, self.0 as i32)
    }
}

} // verus!
