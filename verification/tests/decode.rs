use osrs_high_scores::player_from_body;
use osrs_high_scores::player_from_outcome;
use osrs_high_scores::skills::skill_name;
use osrs_high_scores::FetchOutcome;
use osrs_high_scores::HighScoresError;

const SKILL_NAMES: [&str; 24] = [
    "Overall",
    "Attack",
    "Defence",
    "Strength",
    "Hitpoints",
    "Ranged",
    "Prayer",
    "Magic",
    "Cooking",
    "Woodcutting",
    "Fletching",
    "Fishing",
    "Firemaking",
    "Crafting",
    "Smithing",
    "Mining",
    "Herblore",
    "Agility",
    "Thieving",
    "Slayer",
    "Farming",
    "Runecrafting",
    "Hunter",
    "Construction",
];

#[test]
fn skill_table_order() {
    for (i, name) in SKILL_NAMES.iter().enumerate() {
        assert_eq!(skill_name(i), *name);
    }
}

#[test]
fn full_body_gives_all_twenty_four() {
    let mut body = String::new();
    for i in 0..24 {
        body.push_str(&format!("{},{},{}\n", i + 1, 99, 1000 * i));
    }
    let p = player_from_body("alice", body.as_bytes());
    assert_eq!(p.name, "alice");
    assert_eq!(p.stats.len(), 24);
    for (i, st) in p.stats.iter().enumerate() {
        assert_eq!(st.skill, SKILL_NAMES[i]);
        assert_eq!(st.rank, (i + 1) as i64);
        assert_eq!(st.level, 99);
        assert_eq!(st.xp, (1000 * i) as i64);
    }
}

#[test]
fn two_line_body_example() {
    let p = player_from_body("zezima", b"1,99,13034431\n2,99,7773078");
    assert_eq!(p.name, "zezima");
    assert_eq!(p.stats.len(), 2);
    assert_eq!(p.stats[0].skill, "Overall");
    assert_eq!(p.stats[0].rank, 1);
    assert_eq!(p.stats[0].level, 99);
    assert_eq!(p.stats[0].xp, 13034431);
    assert_eq!(p.stats[1].skill, "Attack");
    assert_eq!(p.stats[1].rank, 2);
    assert_eq!(p.stats[1].level, 99);
    assert_eq!(p.stats[1].xp, 7773078);
}

#[test]
fn non_numeric_token_becomes_sentinel() {
    let p = player_from_body("bob", b"abc,50,100");
    assert_eq!(p.stats.len(), 1);
    assert_eq!(p.stats[0].skill, "Overall");
    assert_eq!(p.stats[0].rank, -1);
    assert_eq!(p.stats[0].level, 50);
    assert_eq!(p.stats[0].xp, 100);
}

#[test]
fn sentinel_applies_per_field() {
    let p = player_from_body("bob", b"1,x,y");
    assert_eq!(p.stats.len(), 1);
    assert_eq!(p.stats[0].rank, 1);
    assert_eq!(p.stats[0].level, -1);
    assert_eq!(p.stats[0].xp, -1);
}

#[test]
fn two_token_line_is_skipped() {
    // The malformed second line produces no entry, so the third line's
    // entry still carries the third skill name and the record is one
    // entry short.
    let p = player_from_body("bob", b"1,2,3\n4,5\n6,7,8");
    assert_eq!(p.stats.len(), 2);
    assert_eq!(p.stats[0].skill, "Overall");
    assert_eq!(p.stats[1].skill, "Defence");
    assert_eq!(p.stats[1].rank, 6);
    assert_eq!(p.stats[1].level, 7);
    assert_eq!(p.stats[1].xp, 8);
}

#[test]
fn four_token_line_is_skipped() {
    let p = player_from_body("bob", b"1,2,3,4");
    assert_eq!(p.stats.len(), 0);
}

#[test]
fn blank_line_is_skipped() {
    let p = player_from_body("bob", b"1,2,3\n\n4,5,6");
    assert_eq!(p.stats.len(), 2);
    assert_eq!(p.stats[0].skill, "Overall");
    assert_eq!(p.stats[1].skill, "Defence");
}

#[test]
fn lines_beyond_twenty_four_are_ignored() {
    let mut body = String::new();
    for i in 0..30 {
        body.push_str(&format!("{},1,1\n", i));
    }
    let p = player_from_body("carol", body.as_bytes());
    assert_eq!(p.stats.len(), 24);
    assert_eq!(p.stats[23].skill, "Construction");
    assert_eq!(p.stats[23].rank, 23);
}

#[test]
fn empty_body_gives_no_stats() {
    let p = player_from_body("dave", b"");
    assert_eq!(p.name, "dave");
    assert_eq!(p.stats.len(), 0);
}

#[test]
fn lines_are_trimmed() {
    let p = player_from_body("eve", b"  1,2,3 \r\n4,5,6\t");
    assert_eq!(p.stats.len(), 2);
    assert_eq!(p.stats[0].rank, 1);
    assert_eq!(p.stats[0].xp, 3);
    assert_eq!(p.stats[1].rank, 4);
}

#[test]
fn spaces_inside_a_line_are_not_trimmed() {
    // Only the line's ends are trimmed: an inner space stays in its token
    // and makes that field fail to parse.
    let p = player_from_body("eve", b"1, 2,3");
    assert_eq!(p.stats.len(), 1);
    assert_eq!(p.stats[0].rank, 1);
    assert_eq!(p.stats[0].level, -1);
    assert_eq!(p.stats[0].xp, 3);
}

#[test]
fn negative_and_signed_numbers_parse() {
    let p = player_from_body("frank", b"-1,-1,-1\n+5,0,-0");
    assert_eq!(p.stats.len(), 2);
    assert_eq!(p.stats[0].rank, -1);
    assert_eq!(p.stats[0].level, -1);
    assert_eq!(p.stats[0].xp, -1);
    assert_eq!(p.stats[1].rank, 5);
    assert_eq!(p.stats[1].level, 0);
    assert_eq!(p.stats[1].xp, 0);
}

#[test]
fn sixty_four_bit_bounds() {
    let p = player_from_body(
        "grace",
        b"9223372036854775807,9223372036854775808,99999999999999999999999\n-9223372036854775808,-9223372036854775809,1",
    );
    assert_eq!(p.stats.len(), 2);
    assert_eq!(p.stats[0].rank, i64::MAX);
    assert_eq!(p.stats[0].level, -1);
    assert_eq!(p.stats[0].xp, -1);
    assert_eq!(p.stats[1].rank, i64::MIN);
    assert_eq!(p.stats[1].level, -1);
    assert_eq!(p.stats[1].xp, 1);
}

#[test]
fn bare_sign_or_empty_token_is_sentinel() {
    let p = player_from_body("hank", b"-,+,5");
    assert_eq!(p.stats.len(), 1);
    assert_eq!(p.stats[0].rank, -1);
    assert_eq!(p.stats[0].level, -1);
    assert_eq!(p.stats[0].xp, 5);
}

#[test]
fn status_404_is_player_not_found() {
    let r = player_from_outcome(
        FetchOutcome::Status(404, String::from("http status 404")),
        "zezima",
    );
    assert!(matches!(r, Err(HighScoresError::PlayerNotFound)));
}

#[test]
fn other_status_is_request_failed() {
    let r = player_from_outcome(
        FetchOutcome::Status(500, String::from("http status 500")),
        "zezima",
    );
    match r {
        Err(HighScoresError::RequestFailed(msg)) => assert_eq!(msg, "http status 500"),
        other => panic!("unexpected result: {:?}", other),
    }
}

#[test]
fn transport_failure_is_request_failed() {
    let r = player_from_outcome(FetchOutcome::Transport(String::from("dns failure")), "z");
    match r {
        Err(HighScoresError::RequestFailed(msg)) => assert_eq!(msg, "dns failure"),
        other => panic!("unexpected result: {:?}", other),
    }
}

#[test]
fn unreadable_body_is_decode_failed() {
    let r = player_from_outcome(FetchOutcome::Unreadable(String::from("bad utf-8")), "z");
    match r {
        Err(HighScoresError::DecodeFailed(msg)) => assert_eq!(msg, "bad utf-8"),
        other => panic!("unexpected result: {:?}", other),
    }
}

#[test]
fn success_body_decodes_to_player() {
    let r = player_from_outcome(FetchOutcome::Body(200, b"1,2,3".to_vec()), "zezima");
    let p = r.unwrap();
    assert_eq!(p.name, "zezima");
    assert_eq!(p.stats.len(), 1);
    assert_eq!(p.stats[0].skill, "Overall");
    assert_eq!(p.stats[0].rank, 1);
    assert_eq!(p.stats[0].level, 2);
    assert_eq!(p.stats[0].xp, 3);
}

#[test]
fn body_with_404_status_is_player_not_found() {
    // Even a response that carried a readable body is "not found" when its
    // status says so: it never decodes to a player record.
    let r = player_from_outcome(FetchOutcome::Body(404, b"1,2,3".to_vec()), "zezima");
    assert!(matches!(r, Err(HighScoresError::PlayerNotFound)));
}

#[test]
fn body_outside_success_band_is_request_failed() {
    let r = player_from_outcome(FetchOutcome::Body(304, b"".to_vec()), "zezima");
    match r {
        Err(HighScoresError::RequestFailed(msg)) => {
            assert_eq!(msg, "unexpected HTTP status 304");
        }
        other => panic!("unexpected result: {:?}", other),
    }
}
