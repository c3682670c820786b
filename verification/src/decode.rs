//! The response decoder: from the raw body of a hiscores response to a
//! [`Player`] record, and from a classified fetch outcome to the lookup's
//! final result.

use vstd::prelude::*;
use vstd::string::StringExecFns;

use crate::model::FetchOutcome;
use crate::model::HighScoresError;
use crate::model::Player;
use crate::model::Stat;
use crate::model::StatView;
use crate::numbers::dec_digits;
use crate::numbers::field_value;
use crate::numbers::parse_field;
use crate::numbers::parsed_i64;
use crate::numbers::push_decimal;
use crate::skills::SKILL_COUNT;
use crate::skills::lemma_skill_names_distinct;
use crate::skills::skill_name;
use crate::skills::skill_name_spec;
use crate::text::seqs_of;
use crate::text::split_bytes;
use crate::text::split_on;
use crate::text::trim_bytes;
use crate::text::trimmed;

verus! {

/// The comma-separated tokens of one response line, after trimming.
pub open spec fn line_tokens(line: Seq<u8>) -> Seq<Seq<u8>> {
    split_on(trimmed(line), 44)
}

/// What the line at table position `i` contributes to the record: one entry
/// when the trimmed line splits into exactly three comma-separated tokens,
/// and nothing otherwise. Each token parses to its field's value, with the
/// sentinel -1 for a token that is not a well-formed integer.
pub open spec fn line_stats(line: Seq<u8>, i: int) -> Seq<StatView> {
    let toks = line_tokens(line);
    if toks.len() == 3 {
        seq![
            StatView {
                skill: skill_name_spec(i),
                rank: field_value(toks[0]),
                level: field_value(toks[1]),
                xp: field_value(toks[2]),
            },
        ]
    } else {
        Seq::empty()
    }
}

/// The entries contributed by the first `n` lines, in order.
pub open spec fn decode_upto(lines: Seq<Seq<u8>>, n: int) -> Seq<StatView>
    decreases n,
{
    if n <= 0 {
        Seq::empty()
    } else {
        decode_upto(lines, n - 1) + line_stats(lines[n - 1], n - 1)
    }
}

/// The full record a response body decodes to: the body is split on line
/// feeds, and each of the first 24 lines is paired with its position in the
/// skill table; lines beyond the 24th are ignored.
pub open spec fn decode_body(body: Seq<u8>) -> Seq<StatView> {
    let lines = split_on(body, 10);
    decode_upto(
        lines,
        if lines.len() <= SKILL_COUNT as int {
            lines.len() as int
        } else {
            SKILL_COUNT as int
        },
    )
}

/// Decodes a response body into a [`Player`] named `name`, as
/// [`decode_body`] describes.
pub fn player_from_body(name: &str, body: &[u8]) -> (p: Player)
    ensures
        p@.name == name@,
        p@.stats == decode_body(body@),
{
    let lines = split_bytes(body, 10);
    let limit = if lines.len() < SKILL_COUNT {
        lines.len()
    } else {
        SKILL_COUNT
    };
    let mut stats: Vec<Stat> = Vec::new();
    let mut i: usize = 0;
    proof {
        assert(stats@.map_values(|s: Stat| s@) =~= decode_upto(seqs_of(lines@), 0));
    }
    while i < limit
        invariant
            i <= limit <= lines@.len(),
            limit == (if seqs_of(lines@).len() <= SKILL_COUNT as int {
                seqs_of(lines@).len() as int
            } else {
                SKILL_COUNT as int
            }),
            seqs_of(lines@) == split_on(body@, 10),
            stats@.map_values(|s: Stat| s@) == decode_upto(seqs_of(lines@), i as int),
        decreases limit - i,
    {
        let line = trim_bytes(lines[i].as_slice());
        let toks = split_bytes(line.as_slice(), 44);
        proof {
            assert(seqs_of(lines@)[i as int] == lines@[i as int]@);
            assert(line_tokens(seqs_of(lines@)[i as int]) == seqs_of(toks@));
        }
        if toks.len() == 3 {
            let st = Stat {
                skill: skill_name(i).to_owned(),
                rank: parse_field(toks[0].as_slice()),
                level: parse_field(toks[1].as_slice()),
                xp: parse_field(toks[2].as_slice()),
            };
            proof {
                assert(seqs_of(toks@)[0] == toks@[0]@);
                assert(seqs_of(toks@)[1] == toks@[1]@);
                assert(seqs_of(toks@)[2] == toks@[2]@);
                assert(st@ == line_stats(seqs_of(lines@)[i as int], i as int)[0]);
                assert(stats@.push(st).map_values(|s: Stat| s@) =~= decode_upto(
                    seqs_of(lines@),
                    i + 1,
                ));
            }
            stats.push(st);
        } else {
            proof {
                assert(line_stats(seqs_of(lines@)[i as int], i as int) =~= Seq::<
                    StatView,
                >::empty());
                assert(stats@.map_values(|s: Stat| s@) =~= decode_upto(seqs_of(lines@), i + 1));
            }
        }
        i += 1;
    }
    let p = Player { name: name.to_owned(), stats };
    proof {
        assert(p@.stats =~= decode_body(body@));
    }
    p
}

/// The number of lines among the first `n` whose trimmed text splits into
/// exactly three comma-separated tokens: the lines that produce an entry.
pub open spec fn well_formed_line_count(lines: Seq<Seq<u8>>, n: int) -> int
    decreases n,
{
    if n <= 0 {
        0
    } else {
        well_formed_line_count(lines, n - 1) + (if line_tokens(lines[n - 1]).len() == 3 {
            1int
        } else {
            0int
        })
    }
}

/// A record holds one entry per well-formed line: the decode of the first
/// `n` lines has exactly as many entries as there are lines among them that
/// split into three tokens. In particular a malformed line shortens the
/// record by one against a well-formed one in its place.
pub proof fn lemma_decode_upto_len(lines: Seq<Seq<u8>>, n: int)
    requires
        0 <= n,
    ensures
        decode_upto(lines, n).len() == well_formed_line_count(lines, n),
    decreases n,
{
    if n > 0 {
        lemma_decode_upto_len(lines, n - 1);
    }
}

/// A malformed line — one whose trimmed text does not split into exactly
/// three comma-separated tokens — produces no entry for its skill slot.
pub proof fn lemma_malformed_line_skipped(line: Seq<u8>, i: int)
    requires
        line_tokens(line).len() != 3,
    ensures
        line_stats(line, i) == Seq::<StatView>::empty(),
{
}

/// When each of the first `n` lines is well formed, the decode keeps them
/// all: entry `j` comes from line `j`, so its skill is the table name at
/// `j` and each numeric field is the parse of the matching token.
pub proof fn lemma_decode_upto_well_formed(lines: Seq<Seq<u8>>, n: int)
    requires
        0 <= n <= lines.len(),
        forall|j: int| 0 <= j < n ==> line_tokens(#[trigger] lines[j]).len() == 3,
    ensures
        decode_upto(lines, n).len() == n,
        forall|j: int|
            0 <= j < n ==> decode_upto(lines, n)[j] == line_stats(#[trigger] lines[j], j)[0],
    decreases n,
{
    if n > 0 {
        lemma_decode_upto_well_formed(lines, n - 1);
        assert(line_stats(lines[n - 1], n - 1).len() == 1);
    }
}

/// A body of exactly 24 well-formed lines decodes to exactly 24 entries:
/// entry `j` carries the skill name at table position `j`, and its rank,
/// level and experience are the parses of the line's three tokens, with the
/// sentinel -1 where a token is not a well-formed integer.
pub proof fn lemma_full_body_decodes_all(body: Seq<u8>)
    requires
        split_on(body, 10).len() == SKILL_COUNT as int,
        forall|j: int|
            0 <= j < SKILL_COUNT as int ==> line_tokens(
                #[trigger] split_on(body, 10)[j],
            ).len() == 3,
    ensures
        decode_body(body).len() == SKILL_COUNT as int,
        forall|j: int|
            0 <= j < SKILL_COUNT as int ==> (#[trigger] decode_body(body)[j]).skill
                == skill_name_spec(j),
        forall|j: int|
            0 <= j < SKILL_COUNT as int ==> (#[trigger] decode_body(body)[j]).rank == field_value(
                line_tokens(split_on(body, 10)[j])[0],
            ),
        forall|j: int|
            0 <= j < SKILL_COUNT as int ==> (#[trigger] decode_body(body)[j]).level == field_value(
                line_tokens(split_on(body, 10)[j])[1],
            ),
        forall|j: int|
            0 <= j < SKILL_COUNT as int ==> (#[trigger] decode_body(body)[j]).xp == field_value(
                line_tokens(split_on(body, 10)[j])[2],
            ),
{
    let lines = split_on(body, 10);
    lemma_decode_upto_well_formed(lines, SKILL_COUNT as int);
    assert forall|j: int| 0 <= j < SKILL_COUNT as int implies (#[trigger] decode_body(body)[j])
        == line_stats(split_on(body, 10)[j], j)[0] by {
        assert(decode_upto(lines, SKILL_COUNT as int)[j] == line_stats(lines[j], j)[0]);
    }
}

/// A line with a token that is not a well-formed integer still produces its
/// entry when the token count is right: the failing field holds the
/// sentinel -1, and the other fields keep their parsed values.
pub proof fn lemma_sentinel_masks_one_field(line: Seq<u8>, i: int)
    requires
        line_tokens(line).len() == 3,
        parsed_i64(line_tokens(line)[0]) is None,
    ensures
        line_stats(line, i).len() == 1,
        line_stats(line, i)[0].rank == -1,
        line_stats(line, i)[0].level == field_value(line_tokens(line)[1]),
        line_stats(line, i)[0].xp == field_value(line_tokens(line)[2]),
{
}

/// The decode of the first `n` lines reads nothing beyond them: two line
/// sequences that agree on their first `n` lines decode alike.
pub proof fn lemma_decode_upto_prefix(l1: Seq<Seq<u8>>, l2: Seq<Seq<u8>>, n: int)
    requires
        0 <= n,
        forall|j: int| 0 <= j < n ==> l1[j] == l2[j],
    ensures
        decode_upto(l1, n) == decode_upto(l2, n),
    decreases n,
{
    if n > 0 {
        lemma_decode_upto_prefix(l1, l2, n - 1);
    }
}

/// Lines beyond the 24th are ignored: two bodies with at least 24 lines
/// each, agreeing on the first 24, decode to the same record, whatever
/// follows.
pub proof fn lemma_lines_beyond_table_ignored(b1: Seq<u8>, b2: Seq<u8>)
    requires
        split_on(b1, 10).len() >= SKILL_COUNT as int,
        split_on(b2, 10).len() >= SKILL_COUNT as int,
        forall|j: int|
            0 <= j < SKILL_COUNT as int ==> #[trigger] split_on(b1, 10)[j] == split_on(b2, 10)[j],
    ensures
        decode_body(b1) == decode_body(b2),
{
    lemma_decode_upto_prefix(split_on(b1, 10), split_on(b2, 10), SKILL_COUNT as int);
}

/// The table positions, in order, of the lines among the first `n` that
/// produce an entry.
pub open spec fn produced_slots(lines: Seq<Seq<u8>>, n: int) -> Seq<int>
    decreases n,
{
    if n <= 0 {
        Seq::empty()
    } else {
        produced_slots(lines, n - 1) + (if line_tokens(lines[n - 1]).len() == 3 {
            seq![n - 1]
        } else {
            Seq::<int>::empty()
        })
    }
}

/// The record's entries follow the skill table: entry `j` comes from table
/// position `produced_slots(lines, n)[j]`, the positions are strictly
/// increasing — so each skill occurs at most once, in table order — and
/// there are at most `n` of them.
pub proof fn lemma_entries_follow_table(lines: Seq<Seq<u8>>, n: int)
    requires
        0 <= n,
    ensures
        produced_slots(lines, n).len() == decode_upto(lines, n).len(),
        decode_upto(lines, n).len() <= n,
        forall|j: int|
            0 <= j < produced_slots(lines, n).len() ==> 0 <= #[trigger] produced_slots(
                lines,
                n,
            )[j] < n,
        forall|j1: int, j2: int|
            0 <= j1 < j2 < produced_slots(lines, n).len() ==> #[trigger] produced_slots(
                lines,
                n,
            )[j1] < #[trigger] produced_slots(lines, n)[j2],
        forall|j: int|
            0 <= j < decode_upto(lines, n).len() ==> line_tokens(
                lines[#[trigger] produced_slots(lines, n)[j]],
            ).len() == 3,
        forall|j: int|
            0 <= j < decode_upto(lines, n).len() ==> #[trigger] decode_upto(lines, n)[j]
                == line_stats(lines[produced_slots(lines, n)[j]], produced_slots(lines, n)[j])[0],
    decreases n,
{
    if n > 0 {
        lemma_entries_follow_table(lines, n - 1);
    }
}

/// A decoded record holds at most 24 entries, and their skills stand at
/// strictly increasing table positions: each of the 24 names at most once,
/// in table order, so no two entries share a skill name.
pub proof fn lemma_record_in_table_order(body: Seq<u8>)
    ensures
        decode_body(body).len() <= SKILL_COUNT as int,
        forall|j: int|
            0 <= j < decode_body(body).len() ==> (#[trigger] decode_body(body)[j]).skill
                == skill_name_spec(
                produced_slots(
                    split_on(body, 10),
                    if split_on(body, 10).len() <= SKILL_COUNT as int {
                        split_on(body, 10).len() as int
                    } else {
                        SKILL_COUNT as int
                    },
                )[j],
            ),
        forall|j1: int, j2: int|
            0 <= j1 < j2 < decode_body(body).len() ==> (#[trigger] decode_body(body)[j1]).skill
                != (#[trigger] decode_body(body)[j2]).skill,
{
    let lines = split_on(body, 10);
    let n: int = if lines.len() <= SKILL_COUNT as int {
        lines.len() as int
    } else {
        SKILL_COUNT as int
    };
    lemma_entries_follow_table(lines, n);
    assert forall|j: int| 0 <= j < decode_body(body).len() implies (#[trigger] decode_body(
        body,
    )[j]).skill == skill_name_spec(produced_slots(lines, n)[j]) by {
        assert(decode_upto(lines, n)[j] == line_stats(
            lines[produced_slots(lines, n)[j]],
            produced_slots(lines, n)[j],
        )[0]);
    }
    assert forall|j1: int, j2: int| 0 <= j1 < j2 < decode_body(body).len() implies (
    #[trigger] decode_body(body)[j1]).skill != (#[trigger] decode_body(body)[j2]).skill by {
        let s1 = produced_slots(lines, n)[j1];
        let s2 = produced_slots(lines, n)[j2];
        assert(s1 < s2);
        lemma_skill_names_distinct(s1, s2);
    }
}

/// The text that opens the error carried by a response whose status is
/// neither a success nor 404.
pub open spec fn status_note() -> Seq<char> {
    "unexpected HTTP status "@
}

/// How the final result of a lookup is fixed by the outcome of its one HTTP
/// fetch: the body of a 2xx response decodes to the player record; status
/// 404 is `PlayerNotFound`; any other status, and any transport failure, is
/// `RequestFailed`; a body that could not be read as text is `DecodeFailed`.
pub open spec fn outcome_decided(
    o: FetchOutcome,
    name: Seq<char>,
    r: Result<Player, HighScoresError>,
) -> bool {
    match o {
        FetchOutcome::Body(code, b) => match r {
            Ok(p) => 200 <= code < 300 && p@.name == name && p@.stats == decode_body(b@),
            Err(HighScoresError::PlayerNotFound) => code == 404,
            Err(HighScoresError::RequestFailed(m)) => !(200 <= code < 300) && code != 404 && m@
                == status_note() + dec_digits(code as int),
            Err(HighScoresError::DecodeFailed(_)) => false,
        },
        FetchOutcome::Status(code, msg) => match r {
            Ok(_) => false,
            Err(HighScoresError::PlayerNotFound) => code == 404,
            Err(HighScoresError::RequestFailed(m)) => code != 404 && m@ == msg@,
            Err(HighScoresError::DecodeFailed(_)) => false,
        },
        FetchOutcome::Transport(msg) => match r {
            Err(HighScoresError::RequestFailed(m)) => m@ == msg@,
            _ => false,
        },
        FetchOutcome::Unreadable(msg) => match r {
            Err(HighScoresError::DecodeFailed(m)) => m@ == msg@,
            _ => false,
        },
    }
}

/// Turns a classified fetch outcome into the lookup's result, as
/// [`outcome_decided`] describes. A 404 status never yields a player record,
/// only `PlayerNotFound`.
pub fn player_from_outcome(o: FetchOutcome, player: &str) -> (r: Result<Player, HighScoresError>)
    ensures
        outcome_decided(o, player@, r),
{
    match o {
        FetchOutcome::Body(code, b) => {
            if 200 <= code && code < 300 {
                Ok(player_from_body(player, b.as_slice()))
            } else if code == 404 {
                Err(HighScoresError::PlayerNotFound)
            } else {
                let mut msg = String::from_str("unexpected HTTP status ");
                push_decimal(&mut msg, code);
                Err(HighScoresError::RequestFailed(msg))
            }
        },
        FetchOutcome::Status(code, msg) => {
            if code == 404 {
                Err(HighScoresError::PlayerNotFound)
            } else {
                Err(HighScoresError::RequestFailed(msg))
            }
        },
        FetchOutcome::Transport(msg) => Err(HighScoresError::RequestFailed(msg)),
        FetchOutcome::Unreadable(msg) => Err(HighScoresError::DecodeFailed(msg)),
    }
}

} // verus!
