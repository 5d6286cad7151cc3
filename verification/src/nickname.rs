//! Generated player nicknames: an adjective, a noun and a six-digit number.
use vstd::prelude::*;
use crate::lootbox::random_between;
use crate::service_tokens::{lemma_split_parts_nonempty, split_chars, split_parts};
use crate::text::{chars_of, decimal, push_chars, push_decimal, push_str, string_of};

verus! {

/// The adjectives a nickname starts with, separated by spaces.
pub const ADJECTIVES: &'static str = "Able Acid Aged Airy Ajar Akin All Any Apt Arch Arid Avid Back Bad Bald Bare Base Bent Best \
    Big Blue Bold Born Both Busy Calm Chic Cold Cool Coy Cute Cyan Damp Dank Dark Dead Deaf \
    Dear Deep Deft Dim Dire Done Down Drab Dry Dual Due Dull Dumb Each East Easy Else Epic \
    Even Evil Fair Fake Far Fast Fat Few Fine Firm Fit Five Flat Fond Foul Four Free Full Game \
    Glad Glib Glum Gold Gone Good Gray Grey Grim Hale Half Hard Held High Hind Hip Holy Hot \
    Huge Hurt Iced Icy Idle Iffy Ill Inky Just Keen Kept Key Kind Knit Lacy Lame Lank Last \
    Late Lax Lazy Lean Left Less Lewd Like Limp Lit Lite Live Lone Long Lost Loud Low Lush Mad \
    Made Main Male Many Mass Mean Meek Mere Mid Mild Mini Mint Mock Moot More Most Much Mute \
    Navy Near Neat Neon New Next Nice Nigh Nil Nine No None Nude Null Numb Odd Off Oily Okay \
    Old One Only Open Oral Our Out Oval Own Paid Pale Past Pert Pink Plus Poor Posh Prim Punk \
    Puny Pure Rare Rash Raw Real Rear Red Rich Rife Ripe Rosy Rude Sad Safe Sage Same Sane \
    Sexy Shot Shut Shy Sick Side Six Slim Slow Sly Smug Snug Soft Sole Solo Some Sore Sour \
    Sown Spry Stag Such Sure Tall Tame Tan Tart Taut Teal Teen Ten That Then Thin This Tidy \
    Tiny Top Torn Trim True Twin Two Ugly Used Vain Vast Very Vile Void Wan Warm Wary";

/// The nouns a nickname continues with, separated by spaces.
pub const NOUNS: &'static str = "Acid Act Age Aid Aim Air Ant Arc Arm Art Ash Atom Aunt Auto Axe Babe Baby Back Bag Bail \
    Bait Ball Band Bang Bank Bar Barn Base Bass Bat Bath Bead Beak Beam Bean Bear Beat Bed Bee \
    Beef Beer Bell Belt Bet Bias Bid Bike Bill Bin Bird Bit Blob Blog Boat Body Bog Boil Bolt \
    Bomb Bond Bone Book Boom Boot Boss Bowl Box Boy Bra Bran Bug Bulb Bull Bump Bun Bus Bush \
    Byte Cab Cage Cake Call Camp Can Cap Car Card Care Cart Case Cash Cast Cat Cave Cell Cent \
    Chef Chin Chip City Clan Clay Club Clue Coal Coat Code Coil Coin Cold Comb Cone Cook Cop \
    Cord Cork Corn Cost Cot Cow Crab Crew Crow Cube Cup Dad Dam Date Dawn Day Deal Debt Deck \
    Deed Deer Dent Desk Dial Dice Diet Dirt Disc Dish Disk Dock Dog Doll Dome Door Dot Dove \
    Drag Drop Drug Drum Duck Dust Duty Ear Ease East Edge Egg Ego Elf Elm End Envy Era Eve \
    Exit Eye Face Fact Fad Fail Fair Fall Fan Farm Fate Fault Fear Fee Feed Feet Film Fin Fire \
    Fish Fist Flag Flaw Flea Flow Flu Fly Foam Fog Foil Folk Food Foot Fork Form Fort Fox Frog \
    Fuel Fun Fund Fur Fuse Gag Gain Gala Gale Game Gap Gas Gate Gear Gem Gene Gift Gig Girl \
    Glee Glow Glue Goal Goat God Gold Golf Grab Gram Grip Grit Gulf Gum Gun Guru Gym Hack Hair \
    Hall Halo Hand Hare Harm Hat Hate Hawk Hay Head Heap Heat Heel Heir Hell Helm Help Herb \
    Hero Hill Hint Hip Hole Home Hood Hook Hope Horn Hose Host Hour Hug Hull Hunt Hut Ice Idea \
    Idol Inch Ink Inn Ion Iron Isle Item Jail Jam Jar Jaw Jazz Jeep Jet Job Joke Joy Jump Junk \
    Jury Keys";

/// The words of a space-separated list.
pub open spec fn words(list: Seq<char>) -> Seq<Seq<char>> {
    split_parts(list, ' ')
}

/// A nickname made of the `a`-th adjective, the `n`-th noun and a number.
pub open spec fn nickname_of(a: int, n: int, number: int) -> Seq<char> {
    words(ADJECTIVES@)[a] + "_"@ + words(NOUNS@)[n] + "_"@ + decimal(number as nat)
}

/// A random nickname: an adjective and a noun drawn from the lists, and a
/// number from 100000 to 999998.
pub fn random_nickname() -> (r: String)
    ensures
        exists|a: int, n: int, number: int|
            0 <= a < words(ADJECTIVES@).len() && 0 <= n < words(NOUNS@).len() && 100000 <= number < 999999
                && r@ == #[trigger] nickname_of(a, n, number),
{
    let adjective_chars = chars_of(ADJECTIVES);
    let noun_chars = chars_of(NOUNS);
    let adjectives = split_chars(&adjective_chars, ' ');
    let nouns = split_chars(&noun_chars, ' ');
    proof {
        lemma_split_parts_nonempty(ADJECTIVES@, ' ');
        lemma_split_parts_nonempty(NOUNS@, ' ');
    }
    let na: usize = adjectives.len();
    let nn: usize = nouns.len();
    let a: usize = random_between(0, na - 1);
    let n: usize = random_between(0, nn - 1);
    let number: usize = random_between(100000, 999998);
    let mut out: Vec<char> = Vec::new();
    push_chars(&mut out, adjectives[a].as_slice());
    push_str(&mut out, "_");
    push_chars(&mut out, nouns[n].as_slice());
    push_str(&mut out, "_");
    push_decimal(&mut out, number as u64);
    proof {
        assert(out@ =~= nickname_of(a as int, n as int, number as int));
    }
    string_of(out.as_slice())
}

} // verus!
