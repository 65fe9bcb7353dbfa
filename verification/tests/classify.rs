use coffee_level::level::{level_percent, select_level, CoffeeLevel, LevelConfig};
use coffee_level::textures::{select_tex_for_level, LevelTextures, RectPx};

#[test]
fn boundary_bands_with_padding_twenty() {
    let config = LevelConfig { min: 0, max: 100 };
    assert_eq!(select_level(81, &config), CoffeeLevel::HIGH);
    assert_eq!(select_level(80, &config), CoffeeLevel::NORMAL);
    assert_eq!(select_level(20, &config), CoffeeLevel::NORMAL);
    assert_eq!(select_level(19, &config), CoffeeLevel::LOW);
}

#[test]
fn extremes_are_classified() {
    let config = LevelConfig { min: 100, max: 200 };
    assert_eq!(select_level(0, &config), CoffeeLevel::LOW);
    assert_eq!(select_level(u32::MAX, &config), CoffeeLevel::HIGH);
}

#[test]
fn narrow_range_has_no_padding() {
    // Width 1 gives padding 0: only weights outside the range leave NORMAL.
    let config = LevelConfig { min: 10, max: 11 };
    assert_eq!(select_level(10, &config), CoffeeLevel::NORMAL);
    assert_eq!(select_level(11, &config), CoffeeLevel::NORMAL);
    assert_eq!(select_level(12, &config), CoffeeLevel::HIGH);
    assert_eq!(select_level(9, &config), CoffeeLevel::LOW);
}

#[test]
fn each_band_has_its_own_texture() {
    let rect = RectPx { x: 0, y: 0, width: 10, height: 10 };
    let tex = LevelTextures {
        high: 3,
        normal: 4,
        low: 5,
        texture_label: 6,
        target_level: rect,
        target_label: rect,
    };
    assert_eq!(select_tex_for_level(CoffeeLevel::HIGH, &tex), 3);
    assert_eq!(select_tex_for_level(CoffeeLevel::NORMAL, &tex), 4);
    assert_eq!(select_tex_for_level(CoffeeLevel::LOW, &tex), 5);
}

#[test]
fn percent_is_clamped_and_scaled() {
    let config = LevelConfig { min: 0, max: 100 };
    assert_eq!(level_percent(50, &config), 50);
    assert_eq!(level_percent(0, &config), 0);
    assert_eq!(level_percent(100, &config), 100);
    assert_eq!(level_percent(2000, &config), 100);
    let shifted = LevelConfig { min: 100, max: 300 };
    assert_eq!(level_percent(40, &shifted), 0);
    assert_eq!(level_percent(200, &shifted), 50);
    let thirds = LevelConfig { min: 0, max: 3 };
    assert_eq!(level_percent(1, &thirds), 33);
    assert_eq!(level_percent(2, &thirds), 66);
}
