use space_survival::entities::{PlayerStats, Score};
use space_survival::hud::{
    fuel_string, game_over, score_text, setup_text, u64_string, update_fuel_text,
    update_health_text,
};

#[test]
fn decimal_rendering() {
    assert_eq!(u64_string(0), "0");
    assert_eq!(u64_string(7), "7");
    assert_eq!(u64_string(20), "20");
    assert_eq!(u64_string(12_345), "12345");
    assert_eq!(u64_string(1_000_000), "1000000");
}

#[test]
fn fuel_rendering_pads_three_fractional_digits() {
    assert_eq!(fuel_string(20_000), "20.000");
    assert_eq!(fuel_string(1_034), "1.034");
    assert_eq!(fuel_string(999), "0.999");
    assert_eq!(fuel_string(0), "0.000");
    assert_eq!(fuel_string(-500), "-0.500");
    assert_eq!(fuel_string(-20_000), "-20.000");
}

#[test]
fn fresh_hud_is_blank() {
    let hud = setup_text();
    assert_eq!(hud.health_text, "");
    assert_eq!(hud.score_text, "");
    assert_eq!(hud.fuel_text, "");
    assert!(!hud.game_over_visible);
}

#[test]
fn health_text_tracks_health_and_banner() {
    let mut hud = setup_text();
    update_health_text(&mut hud, &PlayerStats { health: 20, fuel: 0 });
    assert_eq!(hud.health_text, "20");
    assert!(!hud.game_over_visible);
    update_health_text(&mut hud, &PlayerStats { health: 0, fuel: 0 });
    assert_eq!(hud.health_text, "0");
    assert!(hud.game_over_visible);
}

#[test]
fn score_text_tracks_score() {
    let mut hud = setup_text();
    score_text(&mut hud, &Score { score: 0 });
    assert_eq!(hud.score_text, "0");
    score_text(&mut hud, &Score { score: 417 });
    assert_eq!(hud.score_text, "417");
}

#[test]
fn fuel_text_tracks_fuel() {
    let mut hud = setup_text();
    update_fuel_text(&mut hud, &PlayerStats { health: 20, fuel: 18_500 });
    assert_eq!(hud.fuel_text, "18.500");
    update_fuel_text(&mut hud, &PlayerStats { health: 20, fuel: -250 });
    assert_eq!(hud.fuel_text, "-0.250");
}

#[test]
fn game_over_forces_the_banner() {
    let mut hud = setup_text();
    update_health_text(&mut hud, &PlayerStats { health: 20, fuel: 0 });
    assert!(!hud.game_over_visible);
    game_over(&mut hud);
    assert!(hud.game_over_visible);
    assert_eq!(hud.health_text, "20");
}
