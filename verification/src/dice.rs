use vstd::prelude::*;
use vstd::arithmetic::mul::lemma_mul_upper_bound;
use vstd::arithmetic::power::{
    lemma_pow1, lemma_pow_adds, lemma_pow_increases, lemma_pow_multiplies, lemma_pow_positive,
    pow,
};
use vstd::arithmetic::power2::{
    lemma2_to64, lemma2_to64_rest, lemma_pow2, lemma_pow2_adds, lemma_pow2_strictly_increases,
    pow2,
};
use vstd::string::StringExecFns;

use crate::random::roll_range;
use crate::text::{
    dec_str, is_dec_digit, lemma_dec_str_digits, lemma_dec_str_nonempty, u128_string, u64_string,
};

verus! {

/// The English ordinal suffix for a rendered number: "th" after a tens
/// digit of one, else by the last digit.
pub open spec fn ordinal_suffix(s: Seq<char>) -> Seq<char> {
    if s.len() > 1 && s[s.len() - 2] == '1' {
        "th"@
    } else if s.last() == '1' {
        "st"@
    } else if s.last() == '2' {
        "nd"@
    } else if s.last() == '3' {
        "rd"@
    } else {
        "th"@
    }
}

/// A rendered number with its English ordinal suffix appended.
pub open spec fn ordinalized(s: Seq<char>) -> Seq<char> {
    s + ordinal_suffix(s)
}

/// Relies on inflector's `ordinalize`: on a non-empty string of decimal
/// digits it appends the English ordinal suffix and changes nothing else.
/// It indexes the last character, so the input must not be empty.
#[verifier::external_body]
fn ordinalize_str(s: &str) -> (r: String)
    requires
        s@.len() > 0,
        forall|i: int| 0 <= i < s@.len() ==> is_dec_digit(#[trigger] s@[i]),
    ensures
        r@ == ordinalized(s@),
{
    inflector::numbers::ordinalize::ordinalize(s)
}

/// What case raising makes of a text; a function of the characters alone.
pub uninterp spec fn upper_of(s: Seq<char>) -> Seq<char>;

/// Relies on `str::to_uppercase`: the raised text is computed from the
/// characters of the input alone.
#[verifier::external_body]
fn uppercase(s: &str) -> (r: String)
    ensures
        r@ == upper_of(s@),
{
    s.to_uppercase()
}

/// The spelled-out name of a die face, or "nothing" for anything that is not
/// a face of a six-sided die.
pub open spec fn number_name(number: int) -> Seq<char> {
    if number == 1 {
        "one"@
    } else if number == 2 {
        "two"@
    } else if number == 3 {
        "three"@
    } else if number == 4 {
        "four"@
    } else if number == 5 {
        "five"@
    } else if number == 6 {
        "six"@
    } else {
        "nothing"@
    }
}

/// Spells a die face out in words.
pub fn number_to_string(number: i32) -> (r: String)
    ensures
        r@ == number_name(number as int),
{
    let mut s = String::new();
    if number == 1 {
        s.append("one");
    } else if number == 2 {
        s.append("two");
    } else if number == 3 {
        s.append("three");
    } else if number == 4 {
        s.append("four");
    } else if number == 5 {
        s.append("five");
    } else if number == 6 {
        s.append("six");
    } else {
        s.append("nothing");
    }
    proof {
        assert(s@ =~= number_name(number as int));
    }
    s
}

/// The comment passed on each possible prime-bubble roll.
pub open spec fn prime_comment(roll: int) -> Seq<char> {
    if roll == 1 {
        "You appear to have terrible luck."@
    } else if roll == 2 {
        "That sucks."@
    } else if roll == 3 {
        "Lower end of the middle, but whatever."@
    } else if roll == 4 {
        "Better than a three, you guess."@
    } else if roll == 5 {
        "Great, we can work with this."@
    } else {
        "The most favorable result!"@
    }
}

/// The comment on a prime-bubble roll.
pub fn prime_bubble_comment(roll: u8) -> (r: &'static str)
    requires
        1 <= roll <= 6,
    ensures
        r@ == prime_comment(roll as int),
{
    if roll == 1 {
        "You appear to have terrible luck."
    } else if roll == 2 {
        "That sucks."
    } else if roll == 3 {
        "Lower end of the middle, but whatever."
    } else if roll == 4 {
        "Better than a three, you guess."
    } else if roll == 5 {
        "Great, we can work with this."
    } else {
        "The most favorable result!"
    }
}

/// A power never shrinks when its base grows.
proof fn lemma_pow_base_le(a: nat, b: nat, e: nat)
    requires
        0 < a <= b,
    ensures
        pow(a as int, e) <= pow(b as int, e),
    decreases e,
{
    reveal(pow);
    if e > 0 {
        lemma_pow_base_le(a, b, (e - 1) as nat);
        lemma_pow_positive(a as int, (e - 1) as nat);
        lemma_mul_upper_bound(a as int, b as int, pow(a as int, (e - 1) as nat),
            pow(b as int, (e - 1) as nat));
    }
}

/// Six to the thirty-second power, the ceiling the cascade can reach, fits
/// the sides' machine type.
proof fn lemma_pow_fits_u128()
    ensures
        pow(6, 32) < u128::MAX,
{
    lemma_pow_base_le(6, 8, 32);
    lemma2_to64();
    lemma_pow2(3);
    lemma_pow_multiplies(2, 3, 32);
    lemma_pow2(96);
    lemma_pow2_adds(64, 32);
    lemma2_to64_rest();
    assert(pow2(96) == pow2(64) * pow2(32));
}

/// The running state of the doomsday mini-game: a prime-bubble roll fixes
/// the number of cascaders, and each cascader roll multiplies the sides of
/// the one remaining die. The caller performs the message edits and timed
/// pauses between steps.
pub struct DiceCascade {
    prime_roll: u8,
    cascades_done: u8,
    sides: u128,
}

impl DiceCascade {
    /// The prime-bubble roll that started the game.
    pub closed spec fn prime_roll(&self) -> int {
        self.prime_roll as int
    }

    /// How many cascaders have been pressed.
    pub closed spec fn cascades_done(&self) -> int {
        self.cascades_done as int
    }

    /// The sides of the remaining die.
    pub closed spec fn sides(&self) -> int {
        self.sides as int
    }

    /// The prime roll is a die face; at most one cascader per remaining
    /// bubble has been pressed; the sides stay under six raised to the
    /// doubling power of the steps taken, so the next multiplication cannot
    /// overflow.
    pub open spec fn wf(&self) -> bool {
        &&& 1 <= self.prime_roll() <= 6
        &&& 0 <= self.cascades_done() <= self.prime_roll() - 1
        &&& 1 <= self.sides() <= pow(6, pow2(self.cascades_done() as nat))
    }

    /// Every cascader bubble has been pressed; only the final roll remains.
    pub open spec fn complete(&self) -> bool {
        self.cascades_done() == self.prime_roll() - 1
    }

    /// Starts the game from a given prime-bubble roll, with a six-sided die.
    pub fn prime_with(roll: u8) -> (c: Self)
        requires
            1 <= roll <= 6,
        ensures
            c.wf(),
            c.prime_roll() == roll,
            c.cascades_done() == 0,
            c.sides() == 6,
    {
        proof {
            lemma2_to64();
            lemma_pow1(6);
        }
        DiceCascade { prime_roll: roll, cascades_done: 0, sides: 6 }
    }

    /// Starts the game by rolling the prime bubble.
    pub fn prime() -> (c: Self)
        ensures
            c.wf(),
            c.cascades_done() == 0,
            c.sides() == 6,
    {
        let roll = roll_range(1, 6);
        Self::prime_with(roll as u8)
    }

    /// Reads the prime-bubble roll.
    pub fn get_prime_roll(&self) -> (r: u8)
        ensures
            r == self.prime_roll(),
    {
        self.prime_roll
    }

    /// Reads how many cascaders have been pressed.
    pub fn get_cascades_done(&self) -> (r: u8)
        ensures
            r == self.cascades_done(),
    {
        self.cascades_done
    }

    /// Reads the sides of the remaining die.
    pub fn get_sides(&self) -> (r: u128)
        ensures
            r == self.sides(),
    {
        self.sides
    }

    /// Presses one cascader with a known multiplier roll: the remaining
    /// die's sides multiply by the roll.
    pub fn cascade_step_with(&mut self, roll: u128)
        requires
            old(self).wf(),
            !old(self).complete(),
            1 <= roll <= old(self).sides(),
        ensures
            final(self).wf(),
            final(self).prime_roll() == old(self).prime_roll(),
            final(self).cascades_done() == old(self).cascades_done() + 1,
            final(self).sides() == old(self).sides() * roll,
    {
        proof {
            let k = old(self).cascades_done as nat;
            let p = pow2(k);
            lemma2_to64();
            lemma2_to64_rest();
            if k < 4 {
                lemma_pow2_strictly_increases(k, 4);
            }
            assert(p <= 16);
            lemma_pow_adds(6, p, p);
            lemma_mul_upper_bound(old(self).sides as int, pow(6, p), roll as int,
                pow(6, p));
            if p + p < 32 {
                lemma_pow_increases(6, (p + p) as nat, 32);
            }
            lemma_pow_fits_u128();
            lemma_pow2_adds(k, 1);
            assert(pow2((k + 1) as nat) == p + p);
            lemma_mul_upper_bound(1, old(self).sides as int, 1, roll as int);
        }
        self.sides = self.sides * roll;
        self.cascades_done = self.cascades_done + 1;
    }

    /// Presses one cascader: rolls the remaining die to fix the multiplier,
    /// then multiplies the sides by it. Returns the multiplier roll.
    pub fn cascade_step(&mut self) -> (roll: u128)
        requires
            old(self).wf(),
            !old(self).complete(),
        ensures
            final(self).wf(),
            final(self).prime_roll() == old(self).prime_roll(),
            final(self).cascades_done() == old(self).cascades_done() + 1,
            1 <= roll <= old(self).sides(),
            final(self).sides() == old(self).sides() * roll,
    {
        let roll = roll_range(1, self.sides);
        self.cascade_step_with(roll);
        roll
    }

    /// The final roll of the remaining die, fixing the damage dealt.
    pub fn final_roll(&self) -> (r: u128)
        requires
            self.wf(),
            self.complete(),
        ensures
            1 <= r <= self.sides(),
    {
        roll_range(1, self.sides)
    }
}

/// The title of every embed the mini-game edits.
pub fn cascader_title() -> (r: &'static str)
    ensures
        r@ == "CATENATIVE DOOMSDAY DICE CASCADER"@,
{
    "CATENATIVE DOOMSDAY DICE CASCADER"
}

/// The image shown while the device is off.
pub fn inactive_image_url() -> (r: &'static str)
    ensures
        r@ == "https://galvinism.ink/cddc_inactive.png"@,
{
    "https://galvinism.ink/cddc_inactive.png"
}

/// The animated image for an allocated device.
pub fn active_image_url(prime_roll: u8) -> (r: String)
    ensures
        r@ == "https://galvinism.ink/cddc_active_"@ + dec_str(prime_roll as nat) + ".gif"@,
{
    let mut s = String::new();
    s.append("https://galvinism.ink/cddc_active_");
    let n = u64_string(prime_roll as u64);
    s.append(n.as_str());
    s.append(".gif");
    proof {
        assert(s@ =~= "https://galvinism.ink/cddc_active_"@ + dec_str(prime_roll as nat)
            + ".gif"@);
    }
    s
}

/// The description shown before the prime bubble is pressed.
pub fn initial_description() -> (r: &'static str)
    ensures
        r@
            == "The doomsday device is looming right in front of you. Do you dare to press the **PRIME BUBBLE**?"@,
{
    "The doomsday device is looming right in front of you. Do you dare to press the **PRIME BUBBLE**?"
}

/// The description shown when nobody pressed the prime bubble in time.
pub fn timeout_description() -> (r: &'static str)
    ensures
        r@ == "You failed to press the **PRIME BUBBLE**, the device staying turned off."@,
{
    "You failed to press the **PRIME BUBBLE**, the device staying turned off."
}

/// The description of an allocated device, for a given prime-bubble roll.
pub open spec fn base_description_str(prime_roll: int) -> Seq<char> {
    "\u{1f3b2} You press the **PRIME BUBBLE** to allocate the empty **CATENATOR CRUCIBLES** with bubbles. You rolled a **"@
        + number_name(prime_roll) + "**. "@ + prime_comment(prime_roll)
        + " The crucibles are allocated with **"@ + dec_str(prime_roll as nat)
        + " CASCADER "@ + (if prime_roll == 1 {
        "BUBBLE"@
    } else {
        "BUBBLES"@
    }) + "**, "@ + (if prime_roll > 1 {
        "each"@
    } else {
        ""@
    }) + "containing a D6. \u{1f3b2}"@
}

/// Renders the description of an allocated device.
pub fn base_description(prime_roll: u8) -> (r: String)
    requires
        1 <= prime_roll <= 6,
    ensures
        r@ == base_description_str(prime_roll as int),
{
    let mut s = String::new();
    s.append(
        "\u{1f3b2} You press the **PRIME BUBBLE** to allocate the empty **CATENATOR CRUCIBLES** with bubbles. You rolled a **",
    );
    let name = number_to_string(prime_roll as i32);
    s.append(name.as_str());
    s.append("**. ");
    s.append(prime_bubble_comment(prime_roll));
    s.append(" The crucibles are allocated with **");
    let n = u64_string(prime_roll as u64);
    s.append(n.as_str());
    s.append(" CASCADER ");
    if prime_roll == 1 {
        s.append("BUBBLE");
    } else {
        s.append("BUBBLES");
    }
    s.append("**, ");
    if prime_roll > 1 {
        s.append("each");
    }
    s.append("containing a D6. \u{1f3b2}");
    proof {
        if prime_roll == 1 {
            reveal_strlit("");
            assert(""@ =~= Seq::<char>::empty());
        }
        assert(s@ =~= base_description_str(prime_roll as int));
    }
    s
}

/// The field title for one pressed cascader: the raised ordinal of its
/// number.
pub open spec fn cascader_field_title_str(number: nat) -> Seq<char> {
    "\u{1f3b2} **"@ + upper_of(ordinalized(dec_str(number))) + " CASCADER**"@
}

/// Renders the field title for one pressed cascader.
pub fn cascader_field_title(number: u64) -> (r: String)
    ensures
        r@ == cascader_field_title_str(number as nat),
{
    let mut s = String::new();
    s.append("\u{1f3b2} **");
    let n = u64_string(number);
    proof {
        lemma_dec_str_nonempty(number as nat);
        lemma_dec_str_digits(number as nat);
    }
    let ord = ordinalize_str(n.as_str());
    let up = uppercase(ord.as_str());
    s.append(up.as_str());
    s.append(" CASCADER**");
    proof {
        assert(s@ =~= cascader_field_title_str(number as nat));
    }
    s
}

/// The field body for a pressed cascader while dice remain.
pub open spec fn cascader_field_body_str(number: nat, result: nat, remaining: nat,
    old_sides: nat, new_sides: nat) -> Seq<char> {
    "The **"@ + ordinalized(dec_str(number))
        + "** cascader is pressed for a resulting multiplier of **"@ + dec_str(result)
        + "**. The remaining "@ + dec_str(remaining) + " dice now have **"@ + dec_str(
        old_sides) + "** * **"@ + dec_str(result) + "** = **"@ + dec_str(new_sides)
        + "** sides each."@
}

/// The field body for the last pressed cascader, when one die remains.
pub open spec fn final_cascader_field_body_str(number: nat, result: nat, old_sides: nat,
    new_sides: nat) -> Seq<char> {
    "The **"@ + ordinalized(dec_str(number))
        + "** cascader is pressed for a resulting multiplier of **"@ + dec_str(result)
        + "**. The final remaining die now has **"@ + dec_str(old_sides) + "** * **"@
        + dec_str(result) + "** = **"@ + dec_str(new_sides) + "** sides!"@
}

/// Renders the field body for a pressed cascader while dice remain.
pub fn cascader_field_body(number: u64, result: u128, remaining: u64, old_sides: u128,
    new_sides: u128) -> (r: String)
    ensures
        r@ == cascader_field_body_str(number as nat, result as nat, remaining as nat,
            old_sides as nat, new_sides as nat),
{
    let mut s = String::new();
    s.append("The **");
    let n = u64_string(number);
    proof {
        lemma_dec_str_nonempty(number as nat);
        lemma_dec_str_digits(number as nat);
    }
    let ord = ordinalize_str(n.as_str());
    s.append(ord.as_str());
    s.append("** cascader is pressed for a resulting multiplier of **");
    let res = u128_string(result);
    s.append(res.as_str());
    s.append("**. The remaining ");
    let rem = u64_string(remaining);
    s.append(rem.as_str());
    s.append(" dice now have **");
    let olds = u128_string(old_sides);
    s.append(olds.as_str());
    s.append("** * **");
    s.append(res.as_str());
    s.append("** = **");
    let news = u128_string(new_sides);
    s.append(news.as_str());
    s.append("** sides each.");
    proof {
        assert(s@ =~= cascader_field_body_str(number as nat, result as nat, remaining as nat,
            old_sides as nat, new_sides as nat));
    }
    s
}

/// Renders the field body for the last pressed cascader.
pub fn final_cascader_field_body(number: u64, result: u128, old_sides: u128, new_sides: u128)
    -> (r: String)
    ensures
        r@ == final_cascader_field_body_str(number as nat, result as nat, old_sides as nat,
            new_sides as nat),
{
    let mut s = String::new();
    s.append("The **");
    let n = u64_string(number);
    proof {
        lemma_dec_str_nonempty(number as nat);
        lemma_dec_str_digits(number as nat);
    }
    let ord = ordinalize_str(n.as_str());
    s.append(ord.as_str());
    s.append("** cascader is pressed for a resulting multiplier of **");
    let res = u128_string(result);
    s.append(res.as_str());
    s.append("**. The final remaining die now has **");
    let olds = u128_string(old_sides);
    s.append(olds.as_str());
    s.append("** * **");
    s.append(res.as_str());
    s.append("** = **");
    let news = u128_string(new_sides);
    s.append(news.as_str());
    s.append("** sides!");
    proof {
        assert(s@ =~= final_cascader_field_body_str(number as nat, result as nat,
            old_sides as nat, new_sides as nat));
    }
    s
}

/// The field title for the final roll.
pub fn final_field_title() -> (r: &'static str)
    ensures
        r@ == "\u{1f3b2} **FINAL CASCADER**"@,
{
    "\u{1f3b2} **FINAL CASCADER**"
}

/// The field body announcing the final roll, naming the damage ceiling.
pub fn final_warning_body(sides: u128) -> (r: String)
    ensures
        r@
            == "You roll the last die by pressing the final **DOOMSDAY CASCADER**. This will trigger the weapon on the terrible device and potentially deal up to **"@
            + dec_str(sides as nat) + " HIT POINTS IN DAMAGE**!"@,
{
    let mut s = String::new();
    s.append(
        "You roll the last die by pressing the final **DOOMSDAY CASCADER**. This will trigger the weapon on the terrible device and potentially deal up to **",
    );
    let n = u128_string(sides);
    s.append(n.as_str());
    s.append(" HIT POINTS IN DAMAGE**!");
    proof {
        assert(s@
            =~= "You roll the last die by pressing the final **DOOMSDAY CASCADER**. This will trigger the weapon on the terrible device and potentially deal up to **"@
            + dec_str(sides as nat) + " HIT POINTS IN DAMAGE**!"@);
    }
    s
}

/// The field body reporting the final roll.
pub fn final_result_body(result: u128) -> (r: String)
    ensures
        r@ == "The **DOOMSDAY CASCADER** rolls a "@ + dec_str(result as nat) + "!"@,
{
    let mut s = String::new();
    s.append("The **DOOMSDAY CASCADER** rolls a ");
    let n = u128_string(result);
    s.append(n.as_str());
    s.append("!");
    proof {
        assert(s@ =~= "The **DOOMSDAY CASCADER** rolls a "@ + dec_str(result as nat) + "!"@);
    }
    s
}

/// The extra message sent exactly when the final roll lands on one.
pub fn doomsday_jackpot(result: u128) -> (r: Option<&'static str>)
    ensures
        match r {
            Some(s) => result == 1 && s@ == "https://www.homestuck.com/images/extras/ps000020_9.gif"@,
            None => result != 1,
        },
{
    if result == 1 {
        Some("https://www.homestuck.com/images/extras/ps000020_9.gif")
    } else {
        None
    }
}

} // verus!
