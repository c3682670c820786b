use osrs_high_scores::build_url;
use osrs_high_scores::HARDCORE_HIGH_SCORES;
use osrs_high_scores::IRONMAN_HIGH_SCORES;
use osrs_high_scores::STANDARD_HIGH_SCORES;
use osrs_high_scores::ULTIMATE_HIGH_SCORES;

#[test]
fn standard_url_is_base_plus_player() {
    assert_eq!(
        build_url(STANDARD_HIGH_SCORES, "zezima"),
        "https://secure.runescape.com/m=hiscore_oldschool/index_lite.ws?player=zezima"
    );
}

#[test]
fn ironman_url_is_base_plus_player() {
    assert_eq!(
        build_url(IRONMAN_HIGH_SCORES, "zezima"),
        "https://secure.runescape.com/m=hiscore_oldschool_ironman/index_lite.ws?player=zezima"
    );
}

#[test]
fn hardcore_url_is_base_plus_player() {
    assert_eq!(
        build_url(HARDCORE_HIGH_SCORES, "zezima"),
        "https://secure.runescape.com/m=hiscore_oldschool_hardcore_ironman/index_lite.ws?player=zezima"
    );
}

#[test]
fn ultimate_url_is_base_plus_player() {
    assert_eq!(
        build_url(ULTIMATE_HIGH_SCORES, "zezima"),
        "https://secure.runescape.com/m=hiscore_oldschool_hardcore_ultimate/index_lite.ws?player=zezima"
    );
}

#[test]
fn player_name_is_not_encoded() {
    // The name goes into the query verbatim: no percent-encoding, no
    // substitution of spaces or reserved characters.
    assert_eq!(
        build_url("https://example.invalid/x", "a b&c=d"),
        "https://example.invalid/x?player=a b&c=d"
    );
}
