use teams_cli::error::DomainError;
use teams_cli::models::Presence;
use teams_cli::presence::{
    preferred_presence, presence_from_info, presence_label, presence_status_str, PresenceInfo,
};

#[test]
fn presence_maps_known_and_unknown() {
    assert_eq!(
        presence_from_info(PresenceInfo {
            availability: "Available".into(),
            activity: "Available".into(),
        }),
        Presence::Available
    );
    assert_eq!(
        presence_from_info(PresenceInfo {
            availability: "DoNotDisturb".into(),
            activity: "Presenting".into(),
        }),
        Presence::DoNotDisturb
    );
    assert_eq!(
        presence_from_info(PresenceInfo {
            availability: "Something".into(),
            activity: "X".into(),
        }),
        Presence::Custom("Something".into())
    );
}

#[test]
fn presence_maps_the_synonyms() {
    let of = |a: &str| presence_from_info(PresenceInfo { availability: a.into(), activity: String::new() });
    assert_eq!(of("BeRightBack"), Presence::Away);
    assert_eq!(of("Away"), Presence::Away);
    assert_eq!(of("PresenceUnknown"), Presence::Offline);
    assert_eq!(of("Offline"), Presence::Offline);
    assert_eq!(of("Busy"), Presence::Busy);
    assert_eq!(of("available"), Presence::Custom("available".into()));
}

#[test]
fn presence_status_str_roundtrips_known_variants() {
    assert_eq!(presence_status_str(&Presence::Available), "available");
    assert_eq!(presence_status_str(&Presence::Busy), "busy");
    assert_eq!(presence_status_str(&Presence::Away), "away");
    assert_eq!(presence_status_str(&Presence::DoNotDisturb), "dnd");
    assert_eq!(presence_status_str(&Presence::Offline), "offline");
    assert_eq!(presence_status_str(&Presence::Custom("busy".into())), "busy");
}

#[test]
fn presence_label_maps_each_variant() {
    assert_eq!(presence_label(&Presence::Available), "Available");
    assert_eq!(presence_label(&Presence::Busy), "Busy");
    assert_eq!(presence_label(&Presence::Away), "Away");
    assert_eq!(presence_label(&Presence::DoNotDisturb), "DoNotDisturb");
    assert_eq!(presence_label(&Presence::Offline), "Offline");
    assert_eq!(presence_label(&Presence::Custom("BeRightBack".to_string())), "BeRightBack");
}

#[test]
fn label_reads_back_as_the_same_presence() {
    for p in [Presence::Available, Presence::Busy, Presence::Away, Presence::DoNotDisturb, Presence::Offline] {
        let back = presence_from_info(PresenceInfo { availability: presence_label(&p), activity: String::new() });
        assert_eq!(back, p);
    }
}

#[test]
fn preferred_presence_for_each_status_word() {
    let pair = |w: &str| {
        let p = preferred_presence(w).expect("known word");
        (p.availability, p.activity)
    };
    assert_eq!(pair("available"), ("Available".to_string(), "Available".to_string()));
    assert_eq!(pair("busy"), ("Busy".to_string(), "InACall".to_string()));
    assert_eq!(pair("dnd"), ("DoNotDisturb".to_string(), "Presenting".to_string()));
    assert_eq!(pair("DoNotDisturb"), ("DoNotDisturb".to_string(), "Presenting".to_string()));
    assert_eq!(pair("AWAY"), ("Away".to_string(), "Away".to_string()));
    assert_eq!(pair("offline"), ("Offline".to_string(), "OffWork".to_string()));
}

#[test]
fn preferred_presence_rejects_unknown_words() {
    match preferred_presence("Lunch") {
        Err(DomainError::Invalid(m)) => assert_eq!(
            m,
            "unknown presence status: lunch. Use: available, busy, dnd, away, offline"
        ),
        other => panic!("expected Invalid, got {other:?}"),
    }
}

#[test]
fn every_status_word_is_accepted_back() {
    for p in [Presence::Available, Presence::Busy, Presence::Away, Presence::DoNotDisturb, Presence::Offline] {
        assert!(preferred_presence(&presence_status_str(&p)).is_ok());
    }
}
