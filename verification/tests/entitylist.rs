use lyche::datatypes::game::WeaponId;
use lyche::gamedata::entitylist::{entity_slot_offset, EntityList, ENTITY_SLOTS};

#[test]
fn new_list_is_empty() {
    let l = EntityList::new();
    assert_eq!(l.entities.len(), ENTITY_SLOTS);
    assert!(l.entities.iter().all(|e| e.dormant == 1 && e.u32address == 0));
    assert_eq!(l.closest_player, None);
    assert_eq!(l.local_player.weapon_id, WeaponId::NoWeapon);
    assert_eq!(l.get_team_for(3), None);
    let p = &l.local_player;
    assert_eq!((p.addr32, p.address, p.incross, p.dormant), (0, 0, 0, 0));
    assert_eq!((p.lifestate, p.health, p.team_num, p.shots_fired), (0, 0, 0, 0));
    assert_eq!((p.observing_id, p.weapon_ent_id), (0, 0));
    assert!(!l.names_just_updated);
    for (i, e) in l.entities.iter().enumerate() {
        assert_eq!(e.address, 0);
        assert!(e.name.is_empty());
        assert_eq!((e.ent_info, e.lifestate, e.health, e.team_num), (0, 0, 0, 0));
        assert_eq!((e.bone_matrix, e.spotted_by_mask), (0, 0));
        assert_eq!(l.get_team_for(i), None);
    }
}

#[test]
fn team_of_non_dormant_slot() {
    let mut l = EntityList::new();
    l.entities[4].dormant = 0;
    l.entities[4].team_num = 3;
    assert_eq!(l.get_team_for(4), Some(3));
    l.entities[4].dormant = 0x81;
    assert_eq!(l.get_team_for(4), None);
    l.entities[4].dormant = 2;
    assert_eq!(l.get_team_for(4), Some(3));
}

#[test]
fn read_phases() {
    let mut l = EntityList::new();
    for e in l.entities.iter_mut() {
        e.u32address = 0xDEAD;
    }
    let addr_slots = l.begin_address_reads(1);
    assert_eq!(addr_slots.len(), ENTITY_SLOTS - 1);
    assert!(!addr_slots.contains(&1));
    assert_eq!(l.entities[0].u32address, 0);
    assert_eq!(l.entities[1].u32address, 0xDEAD);

    l.entities[2].u32address = 0x2000;
    l.entities[5].u32address = 0x5000;
    l.entities[2].dormant = 0;
    let field_slots = l.begin_field_reads(1);
    assert_eq!(field_slots, vec![2, 5]);
    assert_eq!(l.entities[2].address, 0x2000);
    assert_eq!(l.entities[0].dormant, 1);

    // slot 2 alive with bones, slot 5 dead
    l.entities[2].lifestate = 0;
    l.entities[2].bone_matrix = 0x9000;
    l.entities[5].dormant = 0;
    l.entities[5].lifestate = 1;
    l.entities[5].bone_matrix = 0x9100;
    l.names_just_updated = true;
    let bone_slots = l.begin_bone_reads(1);
    assert!(l.names_just_updated);
    assert_eq!(bone_slots, vec![2]);
    assert_eq!(l.entities[5].dormant, 1);
    assert_eq!(l.entities[2].dormant, 0);
}

#[test]
fn radar_slots_skip_local_and_spectated() {
    let mut l = EntityList::new();
    for i in [0usize, 2, 3, 7] {
        l.entities[i].dormant = 0;
    }
    l.local_player.observing_id = 0;
    assert_eq!(l.radar_slots(0), Vec::<usize>::new());
    l.local_player.observing_id = 4; // spectating slot 3
    assert_eq!(l.radar_slots(0), vec![2, 7]);
    l.entities[7].lifestate = 2;
    assert_eq!(l.radar_slots(0), vec![2]);
}

#[test]
fn handles_and_weapons() {
    let mut l = EntityList::new();
    l.local_player.observing_id = 0x1234_5007;
    l.local_player.weapon_ent_id = 0x0002_1003;
    assert_eq!(l.local_player.normalize_handles(), Some(2));
    assert_eq!(l.local_player.observing_id, 7);
    assert_eq!(l.local_player.weapon_ent_id, 3);
    l.local_player.set_weapon_from_index(0x7000 | 9);
    assert_eq!(l.local_player.weapon_id, WeaponId::Awp);
    l.local_player.weapon_ent_id = 0x1000;
    assert_eq!(l.local_player.normalize_handles(), None);
    assert_eq!(l.local_player.weapon_id, WeaponId::NoWeapon);
}

#[test]
fn slot_offsets() {
    assert_eq!(entity_slot_offset(0x4DFFEF4, 0), 0x4DFFEF4);
    assert_eq!(entity_slot_offset(0x4DFFEF4, 3), 0x4DFFEF4 + 0x30);
}

#[test]
fn esp_slots_take_other_team_only() {
    let mut l = EntityList::new();
    l.local_player.team_num = 2;
    for (i, team) in [(0usize, 2), (1, 3), (2, 3), (4, 3), (6, 2)] {
        l.entities[i].dormant = 0;
        l.entities[i].team_num = team;
    }
    l.local_player.observing_id = 0;
    assert_eq!(l.esp_slots(), Vec::<usize>::new());
    l.local_player.observing_id = 3; // spectating slot 2
    assert_eq!(l.esp_slots(), vec![1, 4]);
    l.entities[4].lifestate = 1;
    assert_eq!(l.esp_slots(), vec![1]);
    l.entities[1].dormant = 3;
    assert_eq!(l.esp_slots(), Vec::<usize>::new());
}

#[test]
fn closest_candidates_are_active_others() {
    let mut l = EntityList::new();
    for i in [0usize, 1, 5, 9] {
        l.entities[i].dormant = 0;
    }
    l.entities[9].lifestate = 1;
    assert_eq!(l.closest_candidates(1), vec![0, 5]);
    assert_eq!(l.closest_candidates(4), vec![0, 1, 5]);
}

#[test]
fn playing_when_health_left_or_alive() {
    let mut l = EntityList::new();
    assert!(l.local_player.is_playing());
    l.local_player.lifestate = 1;
    assert!(!l.local_player.is_playing());
    l.local_player.health = 10;
    assert!(l.local_player.is_playing());
}
