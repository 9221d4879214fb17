use deathfr::text::faction_link;
use deathfr::text::format_time;
use deathfr::text::format_with_commas;
use deathfr::text::player_link;
use deathfr::text::u64_to_string;

#[test]
fn decimal_rendering() {
    assert_eq!(u64_to_string(0), "0");
    assert_eq!(u64_to_string(7), "7");
    assert_eq!(u64_to_string(1010), "1010");
    assert_eq!(u64_to_string(u64::MAX), "18446744073709551615");
}

#[test]
fn comma_grouping() {
    assert_eq!(format_with_commas(0), "0");
    assert_eq!(format_with_commas(999), "999");
    assert_eq!(format_with_commas(1000), "1,000");
    assert_eq!(format_with_commas(1234567), "1,234,567");
    assert_eq!(format_with_commas(1000000000), "1,000,000,000");
    assert_eq!(format_with_commas(18446744073709551615), "18,446,744,073,709,551,615");
}

#[test]
fn timestamp_markup() {
    assert_eq!(format_time(0), "<t:0:f>");
    assert_eq!(format_time(1700000000), "<t:1700000000:f>");
}

#[test]
fn profile_links() {
    assert_eq!(player_link(2531272), "https://www.torn.com/profiles.php?XID=2531272");
    assert_eq!(
        faction_link(14821),
        "https://www.torn.com/factions.php?step=profile&ID=14821"
    );
}
