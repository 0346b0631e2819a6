use vstd::prelude::*;
use vstd::string::StringExecFns;

use crate::random::roll_range;

verus! {

/// The hydration-check reply.
pub fn hydrate() -> (r: &'static str)
    ensures
        r@ == "don't forget to drink water"@,
{
    "don't forget to drink water"
}

/// The family-friendliness reply.
pub fn familyfriendly() -> (r: &'static str)
    ensures
        r@ == "https://galvinism.ink/nff.jpg"@,
{
    "https://galvinism.ink/nff.jpg"
}

/// The greeting reply.
pub fn hello() -> (r: &'static str)
    ensures
        r@ == "Hello!"@,
{
    "Hello!"
}

/// The ping reply.
pub fn ping() -> (r: &'static str)
    ensures
        r@ == "Pong!"@,
{
    "Pong!"
}

/// The coinflip reply, pointing at the flipcoin command.
pub fn coinflip() -> (r: &'static str)
    ensures
        r@ == "it's !flipcoin"@,
{
    "it's !flipcoin"
}

/// The help reply.
pub fn help() -> (r: &'static str)
    ensures
        r@ == "https://www.youtube.com/watch?v=yD2FSwTy2lw"@,
{
    "https://www.youtube.com/watch?v=yD2FSwTy2lw"
}

/// The ban-appeal-form reply.
pub fn banappeal() -> (r: &'static str)
    ensures
        r@
            == "https://docs.google.com/forms/d/e/1FAIpQLScfna7CI_XMEX-szOBC7h_E1XJDSNCjYEYBId69QwuZnITOCw/viewform"@,
{
    "https://docs.google.com/forms/d/e/1FAIpQLScfna7CI_XMEX-szOBC7h_E1XJDSNCjYEYBId69QwuZnITOCw/viewform"
}

/// The add-john refusal.
pub fn addjohn() -> (r: &'static str)
    ensures
        r@ == "no"@,
{
    "no"
}

/// The oh-no reply.
pub fn ohno() -> (r: &'static str)
    ensures
        r@
            == "https://media.discordapp.net/attachments/431932541612589077/544587477508161547/Ilikestevenuniversealotbutwhydoi_ad1871fcdc058915b00d12d5968a0d0a.png"@,
{
    "https://media.discordapp.net/attachments/431932541612589077/544587477508161547/Ilikestevenuniversealotbutwhydoi_ad1871fcdc058915b00d12d5968a0d0a.png"
}

/// The radio-link reply.
pub fn radio() -> (r: &'static str)
    ensures
        r@ == "https://www.youtube.com/luminantAegis/live"@,
{
    "https://www.youtube.com/luminantAegis/live"
}

/// The no-roleplaying reply.
pub fn rp() -> (r: &'static str)
    ensures
        r@
            == "We all know role playing isn't allowed here, so you must be looking for this instead! https://mspfa.com/?s=25171&p=1"@,
{
    "We all know role playing isn't allowed here, so you must be looking for this instead! https://mspfa.com/?s=25171&p=1"
}

/// The periodic-table sendoff reply.
pub fn copper() -> (r: &'static str)
    ensures
        r@
            == "Copper is \"Cu\" on the periodic table. When read it sounds like \"see you\", a shortened version of the phrase \"See you later\", which is commonly used as a sendoff to someone."@,
{
    "Copper is \"Cu\" on the periodic table. When read it sounds like \"see you\", a shortened version of the phrase \"See you later\", which is commonly used as a sendoff to someone."
}

/// The hug reply, naming who is hugged: the server nickname when one is set,
/// else the account name.
pub fn hug(name: &str) -> (r: String)
    ensures
        r@ == "*hugs "@ + name@ + "*"@,
{
    let mut s = String::new();
    s.append("*hugs ");
    s.append(name);
    s.append("*");
    proof {
        assert(s@ =~= "*hugs "@ + name@ + "*"@);
    }
    s
}

/// The three flipcoin responses, by index.
pub open spec fn flipcoin_response(i: int) -> Seq<char> {
    if i == 0 {
        "You lose."@
    } else if i == 1 {
        "it's /coinflip"@
    } else {
        "GAMBLING? In MY good christian server???"@
    }
}

/// The flipcoin response at a known index.
pub fn flipcoin_reply(i: usize) -> (r: &'static str)
    requires
        i < 3,
    ensures
        r@ == flipcoin_response(i as int),
{
    if i == 0 {
        "You lose."
    } else if i == 1 {
        "it's /coinflip"
    } else {
        "GAMBLING? In MY good christian server???"
    }
}

/// The flipcoin reply: one of the three responses, chosen at random.
pub fn flipcoin() -> (r: &'static str)
    ensures
        exists|i: int| 0 <= i < 3 && r@ == flipcoin_response(i),
{
    let pick = roll_range(0, 2);
    let out = flipcoin_reply(pick as usize);
    proof {
        assert(out@ == flipcoin_response(pick as int));
    }
    out
}

} // verus!
