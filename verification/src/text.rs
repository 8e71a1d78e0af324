//! Texts shown to the player and asset paths, built from numbers and names.
use vstd::prelude::*;
use vstd::string::StringExecFns;
use crate::economy::{Player, TowerKind, spec_cost};
use crate::launch::{is_digit, digits_value, lemma_decimal_digits};

verus! {

/// The character of a decimal digit.
pub open spec fn digit_char(d: int) -> char {
    ('0' as int + d) as char
}

/// The decimal writing of a natural number, without leading zeros.
pub open spec fn spec_decimal(n: nat) -> Seq<char>
    decreases n,
{
    if n < 10 {
        seq![digit_char(n as int)]
    } else {
        spec_decimal(n / 10).push(digit_char((n % 10) as int))
    }
}

fn digit_str(d: u64) -> (s: &'static str)
    requires
        d < 10,
    ensures
        s@ == seq![digit_char(d as int)],
{
    proof {
        reveal_strlit("0");
        reveal_strlit("1");
        reveal_strlit("2");
        reveal_strlit("3");
        reveal_strlit("4");
        reveal_strlit("5");
        reveal_strlit("6");
        reveal_strlit("7");
        reveal_strlit("8");
        reveal_strlit("9");
    }
    let s = match d {
        0 => "0",
        1 => "1",
        2 => "2",
        3 => "3",
        4 => "4",
        5 => "5",
        6 => "6",
        7 => "7",
        8 => "8",
        _ => "9",
    };
    proof {
        assert(s@ =~= seq![digit_char(d as int)]);
    }
    s
}

/// Append the decimal writing of `n`.
pub fn append_decimal(s: &mut String, n: u64)
    ensures
        final(s)@ == old(s)@ + spec_decimal(n as nat),
    decreases n,
{
    if n >= 10 {
        append_decimal(s, n / 10);
    }
    s.append(digit_str(n % 10));
    proof {
        if n >= 10 {
            assert(old(s)@ + spec_decimal((n / 10) as nat) + seq![digit_char((n % 10) as int)]
                =~= old(s)@ + spec_decimal(n as nat));
        } else {
            assert(spec_decimal(n as nat) =~= seq![digit_char((n % 10) as int)]);
        }
    }
}

/// The decimal writing of `n` as a string.
pub fn decimal_string(n: u64) -> (s: String)
    ensures
        s@ == spec_decimal(n as nat),
{
    let mut s = String::new();
    append_decimal(&mut s, n);
    proof {
        assert(Seq::<char>::empty() + spec_decimal(n as nat) =~= spec_decimal(n as nat));
    }
    s
}

/// The hint under an unaffordable tower: what is missing, e.g. `(need +2 wood, +1 rock)`.
pub open spec fn spec_need_text(need_wood: nat, need_rock: nat) -> Seq<char> {
    let wood = if need_wood > 0 { "+"@ + spec_decimal(need_wood) + " wood"@ } else { Seq::empty() };
    let sep = if need_wood > 0 && need_rock > 0 { ", "@ } else { Seq::empty() };
    let rock = if need_rock > 0 { "+"@ + spec_decimal(need_rock) + " rock"@ } else { Seq::empty() };
    "(need "@ + wood + sep + rock + ")"@
}

/// `d` is a non-empty run of decimal digits whose value is `n`.
pub open spec fn writes_number(d: Seq<char>, n: nat) -> bool {
    &&& d.len() > 0
    &&& forall|i: int| 0 <= i < d.len() ==> is_digit(#[trigger] d[i])
    &&& digits_value(d) == n
}

/// `text` is `(need +`, the digits `d`, ` wood`, then `tail`.
pub open spec fn wood_part(text: Seq<char>, d: Seq<char>, tail: Seq<char>) -> bool {
    text == "(need "@ + "+"@ + d + " wood"@ + tail
}

/// `text` is `head`, `+`, the digits `d`, then ` rock)`.
pub open spec fn rock_part(text: Seq<char>, head: Seq<char>, d: Seq<char>) -> bool {
    text == head + "+"@ + d + " rock"@ + ")"@
}

/// The missing amounts in the hint read back exactly: after `(need +` comes a
/// non-empty run of decimal digits whose value is the missing wood, then ` wood`; and
/// the hint ends with `+`, a run of digits whose value is the missing rock, and ` rock)`.
pub proof fn law_need_text_reads_back(nw: nat, nr: nat)
    ensures
        nw > 0 ==> exists|d: Seq<char>, tail: Seq<char>|
            #[trigger] wood_part(spec_need_text(nw, nr), d, tail) && writes_number(d, nw),
        nr > 0 ==> exists|head: Seq<char>, d: Seq<char>|
            #[trigger] rock_part(spec_need_text(nw, nr), head, d) && writes_number(d, nr),
{
    let wood = if nw > 0 { "+"@ + spec_decimal(nw) + " wood"@ } else { Seq::<char>::empty() };
    let sep = if nw > 0 && nr > 0 { ", "@ } else { Seq::<char>::empty() };
    let rock = if nr > 0 { "+"@ + spec_decimal(nr) + " rock"@ } else { Seq::<char>::empty() };
    if nw > 0 {
        lemma_decimal_digits(nw);
        let d = spec_decimal(nw);
        let tail = sep + rock + ")"@;
        assert(spec_need_text(nw, nr) =~= "(need "@ + "+"@ + d + " wood"@ + tail);
        assert(wood_part(spec_need_text(nw, nr), d, tail));
        assert(writes_number(d, nw));
    }
    if nr > 0 {
        lemma_decimal_digits(nr);
        let d = spec_decimal(nr);
        let head = "(need "@ + wood + sep;
        assert(spec_need_text(nw, nr) =~= head + "+"@ + d + " rock"@ + ")"@);
        assert(rock_part(spec_need_text(nw, nr), head, d));
        assert(writes_number(d, nr));
    }
}

/// The hint under a tower option: empty when the player can afford it, otherwise
/// the missing wood and rock.
pub fn missing_resources_text(p: &Player, kind: TowerKind) -> (t: String)
    ensures
        ({
            let nw: nat = if p.wood >= spec_cost(kind).0 { 0 } else { (spec_cost(kind).0 - p.wood) as nat };
            let nr: nat = if p.rock >= spec_cost(kind).1 { 0 } else { (spec_cost(kind).1 - p.rock) as nat };
            t@ == if nw == 0 && nr == 0 { Seq::empty() } else { spec_need_text(nw, nr) }
        }),
{
    let (need_wood, need_rock) = crate::economy::missing_resources(p, kind);
    if need_wood == 0 && need_rock == 0 {
        return String::new();
    }
    let mut msg = String::from_str("(need ");
    let ghost start = msg@;
    if need_wood > 0 {
        msg.append("+");
        append_decimal(&mut msg, need_wood as u64);
        msg.append(" wood");
    }
    let ghost after_wood = msg@;
    if need_rock > 0 {
        if need_wood > 0 {
            msg.append(", ");
        }
        msg.append("+");
        append_decimal(&mut msg, need_rock as u64);
        msg.append(" rock");
    }
    msg.append(")");
    proof {
        let nw = need_wood as nat;
        let nr = need_rock as nat;
        let wood = if nw > 0 { "+"@ + spec_decimal(nw) + " wood"@ } else { Seq::<char>::empty() };
        let sep = if nw > 0 && nr > 0 { ", "@ } else { Seq::<char>::empty() };
        let rock = if nr > 0 { "+"@ + spec_decimal(nr) + " rock"@ } else { Seq::<char>::empty() };
        assert(after_wood =~= start + wood);
        assert(msg@ =~= "(need "@ + wood + sep + rock + ")"@);
    }
    msg
}

/// The wave counter, `Wave: N`.
pub fn wave_label(n: u32) -> (t: String)
    ensures
        t@ == "Wave: "@ + spec_decimal(n as nat),
{
    let mut t = String::from_str("Wave: ");
    append_decimal(&mut t, n as u64);
    t
}

/// The countdown to the next wave, `Next wave in: Ns`.
pub fn next_wave_label(seconds: u32) -> (t: String)
    ensures
        t@ == "Next wave in: "@ + spec_decimal(seconds as nat) + "s"@,
{
    let mut t = String::from_str("Next wave in: ");
    append_decimal(&mut t, seconds as u64);
    t.append("s");
    t
}

/// The price line of a tower card in the build menu, `Cost: N`.
pub fn item_cost_label(cost: u32) -> (t: String)
    ensures
        t@ == "Cost: "@ + spec_decimal(cost as nat),
{
    let mut t = String::from_str("Cost: ");
    append_decimal(&mut t, cost as u64);
    t
}

/// The price line of an upgrade card in the build menu, `Ng Ms` (gold, then silver).
pub fn upgrade_cost_label(gold: u64, silver: u64) -> (t: String)
    ensures
        t@ == spec_decimal(gold as nat) + "g "@ + spec_decimal(silver as nat) + "s"@,
{
    let mut t = String::new();
    append_decimal(&mut t, gold);
    t.append("g ");
    append_decimal(&mut t, silver);
    t.append("s");
    proof {
        assert(t@ =~= spec_decimal(gold as nat) + "g "@ + spec_decimal(silver as nat) + "s"@);
    }
    t
}

/// Folder of sound effects.
pub open spec fn sfx_dir() -> Seq<char> {
    "audio/sfx/"@
}

/// The sound-effect file candidates for a name, in the order they are tried:
/// wav, flac, mp3, ogg.
pub open spec fn spec_audio_candidates(stem: Seq<char>) -> Seq<Seq<char>> {
    seq![
        sfx_dir() + stem + ".wav"@,
        sfx_dir() + stem + ".flac"@,
        sfx_dir() + stem + ".mp3"@,
        sfx_dir() + stem + ".ogg"@,
    ]
}

fn sfx_path(stem: &str, ext: &str) -> (p: String)
    ensures
        p@ == sfx_dir() + stem@ + "."@ + ext@,
{
    let mut p = String::from_str("audio/sfx/");
    p.append(stem);
    p.append(".");
    p.append(ext);
    p
}

/// Paths to try, in order, for a sound effect; the last one (ogg) is also the fallback
/// used when none of them exists.
pub fn audio_candidates(stem: &str) -> (v: Vec<String>)
    ensures
        v@.len() == 4,
        forall|i: int| 0 <= i < 4 ==> #[trigger] v@[i]@ == spec_audio_candidates(stem@)[i],
{
    proof {
        reveal_strlit(".");
        reveal_strlit("wav");
        reveal_strlit("flac");
        reveal_strlit("mp3");
        reveal_strlit("ogg");
        reveal_strlit(".wav");
        reveal_strlit(".flac");
        reveal_strlit(".mp3");
        reveal_strlit(".ogg");
    }
    let mut v: Vec<String> = Vec::new();
    v.push(sfx_path(stem, "wav"));
    v.push(sfx_path(stem, "flac"));
    v.push(sfx_path(stem, "mp3"));
    v.push(sfx_path(stem, "ogg"));
    proof {
        assert(v@[0]@ =~= spec_audio_candidates(stem@)[0]);
        assert(v@[1]@ =~= spec_audio_candidates(stem@)[1]);
        assert(v@[2]@ =~= spec_audio_candidates(stem@)[2]);
        assert(v@[3]@ =~= spec_audio_candidates(stem@)[3]);
    }
    v
}

} // verus!
