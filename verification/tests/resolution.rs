use launcher_core::resolution::Resolution;

#[test]
fn list_holds_the_presets_in_order() {
    assert_eq!(
        Resolution::list(),
        vec![
            Resolution::MiniHD,
            Resolution::HD,
            Resolution::FullHD,
            Resolution::QuadHD,
            Resolution::UltraHD,
        ]
    );
}

#[test]
fn get_pair_of_each_preset() {
    assert_eq!(Resolution::MiniHD.get_pair(), (960, 540));
    assert_eq!(Resolution::HD.get_pair(), (1280, 720));
    assert_eq!(Resolution::FullHD.get_pair(), (1920, 1080));
    assert_eq!(Resolution::QuadHD.get_pair(), (2560, 1440));
    assert_eq!(Resolution::UltraHD.get_pair(), (3840, 2160));
    assert_eq!(Resolution::Custom(123, 456).get_pair(), (123, 456));
}

#[test]
fn from_pair_finds_presets() {
    assert_eq!(Resolution::from_pair(960, 540), Resolution::MiniHD);
    assert_eq!(Resolution::from_pair(1920, 1080), Resolution::FullHD);
    assert_eq!(Resolution::from_pair(3840, 2160), Resolution::UltraHD);
}

#[test]
fn from_pair_falls_back_to_custom() {
    assert_eq!(Resolution::from_pair(800, 600), Resolution::Custom(800, 600));
    // close to a preset is not a preset
    assert_eq!(Resolution::from_pair(1920, 1079), Resolution::Custom(1920, 1079));
}

#[test]
fn pairs_survive_the_round_trip() {
    for (w, h) in [(960, 540), (800, 600), (0, 0), (u64::MAX, 1)] {
        assert_eq!(Resolution::from_pair(w, h).get_pair(), (w, h));
    }
}

#[test]
fn try_from_decodes_every_index() {
    assert_eq!(Resolution::try_from(0), Ok(Resolution::MiniHD));
    assert_eq!(Resolution::try_from(1), Ok(Resolution::HD));
    assert_eq!(Resolution::try_from(2), Ok(Resolution::FullHD));
    assert_eq!(Resolution::try_from(3), Ok(Resolution::QuadHD));
    assert_eq!(Resolution::try_from(4), Ok(Resolution::UltraHD));
    assert_eq!(Resolution::try_from(5), Ok(Resolution::Custom(0, 0)));
}

#[test]
fn try_from_rejects_larger_indices() {
    assert_eq!(
        Resolution::try_from(6),
        Err("Failed to convert number to Resolution enum".to_string())
    );
    assert!(Resolution::try_from(u32::MAX).is_err());
}

#[test]
fn into_encodes_each_resolution() {
    assert_eq!(Resolution::MiniHD.into(), 0);
    assert_eq!(Resolution::HD.into(), 1);
    assert_eq!(Resolution::FullHD.into(), 2);
    assert_eq!(Resolution::QuadHD.into(), 3);
    assert_eq!(Resolution::UltraHD.into(), 4);
    assert_eq!(Resolution::Custom(960, 540).into(), 5);
}
