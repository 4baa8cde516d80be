use runs_api::target::RunTarget;

const ALL: [(RunTarget, &str); 14] = [
    (RunTarget::Pit, "pit"),
    (RunTarget::Andariel, "andariel"),
    (RunTarget::Cows, "cows"),
    (RunTarget::Countess, "countess"),
    (RunTarget::ArcaneSanctuary, "arcane_sanctuary"),
    (RunTarget::AncientTunnels, "ancient_tunnels"),
    (RunTarget::Travincal, "travincal"),
    (RunTarget::Mephisto, "mephisto"),
    (RunTarget::Chaos, "chaos"),
    (RunTarget::Pindle, "pindle"),
    (RunTarget::Shenk, "shenk"),
    (RunTarget::Eldritch, "eldritch"),
    (RunTarget::Worldstone, "worldstone"),
    (RunTarget::Baal, "baal"),
];

#[test]
fn every_category_has_its_snake_case_name() {
    for (target, name) in ALL {
        assert_eq!(target.as_ref(), name);
    }
}

#[test]
fn every_name_resolves_to_its_category() {
    for (target, name) in ALL {
        assert_eq!(RunTarget::from_str(name), Ok(target));
    }
}

#[test]
fn names_round_trip_through_the_category() {
    for (target, _) in ALL {
        assert_eq!(RunTarget::from_str(target.as_ref()), Ok(target));
    }
    for (_, name) in ALL {
        assert_eq!(RunTarget::from_str(name).unwrap().as_ref(), name);
    }
}

#[test]
fn names_are_pairwise_distinct() {
    for (i, (_, a)) in ALL.iter().enumerate() {
        for (j, (_, b)) in ALL.iter().enumerate() {
            assert_eq!(a == b, i == j);
        }
    }
}

#[test]
fn unknown_name_is_not_found() {
    assert_eq!(RunTarget::from_str("nope"), Err(strum::ParseError::VariantNotFound));
}

#[test]
fn matching_is_case_sensitive() {
    assert_eq!(RunTarget::from_str("Baal"), Err(strum::ParseError::VariantNotFound));
    assert_eq!(RunTarget::from_str("BAAL"), Err(strum::ParseError::VariantNotFound));
    assert_eq!(RunTarget::from_str("ArcaneSanctuary"), Err(strum::ParseError::VariantNotFound));
}

#[test]
fn matching_is_exact() {
    assert!(RunTarget::from_str("").is_err());
    assert!(RunTarget::from_str("baal ").is_err());
    assert!(RunTarget::from_str(" baal").is_err());
    assert!(RunTarget::from_str("baa").is_err());
    assert!(RunTarget::from_str("baall").is_err());
    assert!(RunTarget::from_str("arcane-sanctuary").is_err());
    assert!(RunTarget::from_str("arcane sanctuary").is_err());
    assert!(RunTarget::from_str("pi\u{301}t").is_err());
}
