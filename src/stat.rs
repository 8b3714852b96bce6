use vstd::prelude::*;

verus! {

/// An attribute vector: four signed fields, combined field by field.
#[derive(Debug, Clone, Copy, PartialEq, Eq, Structural)]
pub struct Stat {
    pub health: i32,
    pub attack: i32,
    pub defense: i32,
    pub magic: i32,
}

/// Whether `v` is representable as an `i32`.
pub open spec fn fits_i32(v: int) -> bool {
    i32::MIN <= v <= i32::MAX
}

impl Stat {
    /// The vector with every field zero.
    pub open spec fn zero() -> Stat {
        Stat { health: 0, attack: 0, defense: 0, magic: 0 }
    }

    /// Whether every field of `self + rhs` fits in an `i32`.
    pub open spec fn add_fits(self, rhs: Stat) -> bool {
        &&& fits_i32(self.health + rhs.health)
        &&& fits_i32(self.attack + rhs.attack)
        &&& fits_i32(self.defense + rhs.defense)
        &&& fits_i32(self.magic + rhs.magic)
    }

    /// Whether every field of `self - rhs` fits in an `i32`.
    pub open spec fn sub_fits(self, rhs: Stat) -> bool {
        &&& fits_i32(self.health - rhs.health)
        &&& fits_i32(self.attack - rhs.attack)
        &&& fits_i32(self.defense - rhs.defense)
        &&& fits_i32(self.magic - rhs.magic)
    }

    /// The field-wise sum.
    pub open spec fn plus(self, rhs: Stat) -> Stat {
        Stat {
            health: (self.health + rhs.health) as i32,
            attack: (self.attack + rhs.attack) as i32,
            defense: (self.defense + rhs.defense) as i32,
            magic: (self.magic + rhs.magic) as i32,
        }
    }

    /// The field-wise difference.
    pub open spec fn minus(self, rhs: Stat) -> Stat {
        Stat {
            health: (self.health - rhs.health) as i32,
            attack: (self.attack - rhs.attack) as i32,
            defense: (self.defense - rhs.defense) as i32,
            magic: (self.magic - rhs.magic) as i32,
        }
    }

    /// Adds `rhs` to `self` in place.
    pub fn add_assign(&mut self, rhs: Stat)
        requires
            old(self).add_fits(rhs),
        ensures
            *final(self) == old(self).plus(rhs),
    {
        self.health = self.health + rhs.health;
        self.attack = self.attack + rhs.attack;
        self.defense = self.defense + rhs.defense;
        self.magic = self.magic + rhs.magic;
    }

    /// Subtracts `rhs` from `self` in place.
    pub fn sub_assign(&mut self, rhs: Stat)
        requires
            old(self).sub_fits(rhs),
        ensures
            *final(self) == old(self).minus(rhs),
    {
        self.health = self.health - rhs.health;
        self.attack = self.attack - rhs.attack;
        self.defense = self.defense - rhs.defense;
        self.magic = self.magic - rhs.magic;
    }
}

impl core::ops::Add for Stat {
    type Output = Stat;

    fn add(self, rhs: Stat) -> (r: Stat) {
        Stat {
            health: self.health + rhs.health,
            attack: self.attack + rhs.attack,
            defense: self.defense + rhs.defense,
            magic: self.magic + rhs.magic,
        }
    }
}

impl vstd::std_specs::ops::AddSpecImpl for Stat {
    open spec fn obeys_add_spec() -> bool {
        true
    }

    open spec fn add_req(self, rhs: Stat) -> bool {
        self.add_fits(rhs)
    }

    open spec fn add_spec(self, rhs: Stat) -> Stat {
        self.plus(rhs)
    }
}

impl core::ops::Sub for Stat {
    type Output = Stat;

    fn sub(self, rhs: Stat) -> (r: Stat) {
        Stat {
            health: self.health - rhs.health,
            attack: self.attack - rhs.attack,
            defense: self.defense - rhs.defense,
            magic: self.magic - rhs.magic,
        }
    }
}

impl vstd::std_specs::ops::SubSpecImpl for Stat {
    open spec fn obeys_sub_spec() -> bool {
        true
    }

    open spec fn sub_req(self, rhs: Stat) -> bool {
        self.sub_fits(rhs)
    }

    open spec fn sub_spec(self, rhs: Stat) -> Stat {
        self.minus(rhs)
    }
}

/// Addition commutes, and subtracting `b` from `a + b` gives back `a`.
pub proof fn lemma_add_commutes_and_sub_inverts(a: Stat, b: Stat)
    requires
        a.add_fits(b),
    ensures
        b.add_fits(a),
        a.plus(b) == b.plus(a),
        a.plus(b).sub_fits(b),
        a.plus(b).minus(b) == a,
{
}

/// The zero vector is a right identity of addition.
pub proof fn lemma_add_zero(a: Stat)
    ensures
        a.add_fits(Stat::zero()),
        a.plus(Stat::zero()) == a,
{
}

/// The character of decimal digit `d`.
pub open spec fn digit_char(d: nat) -> char {
    if d == 0 { '0' }
    else if d == 1 { '1' }
    else if d == 2 { '2' }
    else if d == 3 { '3' }
    else if d == 4 { '4' }
    else if d == 5 { '5' }
    else if d == 6 { '6' }
    else if d == 7 { '7' }
    else if d == 8 { '8' }
    else { '9' }
}

/// The decimal digits of `n`, most significant first, without leading zeros.
pub open spec fn decimal_nat(n: nat) -> Seq<char>
    decreases n,
{
    if n < 10 {
        seq![digit_char(n)]
    } else {
        decimal_nat(n / 10) + seq![digit_char(n % 10)]
    }
}

/// The decimal text of `i`, with a leading minus sign when it is negative.
pub open spec fn decimal(i: int) -> Seq<char> {
    if i < 0 {
        seq!['-'] + decimal_nat((-i) as nat)
    } else {
        decimal_nat(i as nat)
    }
}

/// The text of `s`: its four fields in the order health, attack, defense,
/// magic, followed by a newline.
pub open spec fn rendering(s: Stat) -> Seq<char> {
    "State: [health: "@ + decimal(s.health as int) + ", attack: "@ + decimal(s.attack as int)
        + ", defense: "@ + decimal(s.defense as int) + ", magic: "@ + decimal(s.magic as int)
        + "]\n"@
}

fn digit_str(d: u64) -> (r: &'static str)
    requires
        d < 10,
    ensures
        r@ == seq![digit_char(d as nat)],
{
    proof {
        reveal_strlit("0");
        reveal_strlit("1");
        reveal_strlit("2");
        reveal_strlit("3");
        reveal_strlit("4");
        reveal_strlit("5");
        reveal_strlit("6");
        reveal_strlit("7");
        reveal_strlit("8");
        reveal_strlit("9");
    }
    if d == 0 { "0" }
    else if d == 1 { "1" }
    else if d == 2 { "2" }
    else if d == 3 { "3" }
    else if d == 4 { "4" }
    else if d == 5 { "5" }
    else if d == 6 { "6" }
    else if d == 7 { "7" }
    else if d == 8 { "8" }
    else { "9" }
}

fn push_decimal_nat(out: &mut String, n: u64)
    ensures
        final(out)@ == old(out)@ + decimal_nat(n as nat),
    decreases n,
{
    if n >= 10 {
        push_decimal_nat(out, n / 10);
    }
    out.append(digit_str(n % 10));
}

fn push_decimal(out: &mut String, i: i32)
    ensures
        final(out)@ == old(out)@ + decimal(i as int),
{
    if i < 0 {
        proof {
            reveal_strlit("-");
        }
        out.append("-");
        let magnitude: u64 = (-(i as i64)) as u64;
        push_decimal_nat(out, magnitude);
    } else {
        push_decimal_nat(out, i as u64);
    }
}

impl Stat {
    /// The text of this vector, as `rendering` gives it.
    pub fn render(&self) -> (r: String)
        ensures
            r@ == rendering(*self),
    {
        let mut out = String::new();
        out.append("State: [health: ");
        push_decimal(&mut out, self.health);
        out.append(", attack: ");
        push_decimal(&mut out, self.attack);
        out.append(", defense: ");
        push_decimal(&mut out, self.defense);
        out.append(", magic: ");
        push_decimal(&mut out, self.magic);
        out.append("]\n");
        out
    }
}

/// The holder capability: something that reports its current attribute
/// vector and accepts a whole replacement.
pub trait StatTrait {
    /// The vector the holder currently stores.
    spec fn current(&self) -> Stat;

    fn get_stat(&self) -> (r: Stat)
        ensures
            r == self.current(),
    ;

    fn set_stat(&mut self, stat: Stat)
        ensures
            final(self).current() == stat,
    ;
}

} // verus!
