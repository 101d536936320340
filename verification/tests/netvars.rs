use lyche::offsets::games::csgo::netvars::NetvarManager;
use lyche::offsets::games::csgo::table::{RecvProp, RecvTable};

fn prop(name: &str, offset: i32, table: Option<RecvTable>) -> RecvProp {
    RecvProp { name: name.to_string(), offset, table: table.map(Box::new) }
}

fn player_table(health: i32) -> RecvTable {
    RecvTable {
        name: "DT_CSPlayer".to_string(),
        props: vec![
            prop("m_iHealth", health, None),
            prop(
                "m_Local",
                0x2FBC,
                Some(RecvTable {
                    name: "DT_Local".to_string(),
                    props: vec![prop("m_aimPunchAngle", 0x70, None)],
                }),
            ),
            prop("m_iTeamNum", 0xF4, None),
        ],
    }
}

#[test]
fn direct_and_nested_offsets() {
    let t = player_table(0x100);
    assert_eq!(t.get_offset("m_iHealth"), Some(0x100));
    assert_eq!(t.get_offset("m_iTeamNum"), Some(0xF4));
    assert_eq!(t.get_offset("m_aimPunchAngle"), Some(0x2FBC + 0x70));
    assert_eq!(t.get_offset("m_vecOrigin"), None);
}

#[test]
fn nested_offsets_wrap() {
    let t = RecvTable {
        name: "T".to_string(),
        props: vec![prop(
            "outer",
            i32::MAX,
            Some(RecvTable { name: "I".to_string(), props: vec![prop("inner", 1, None)] }),
        )],
    };
    assert_eq!(t.get_offset("inner"), Some(i32::MIN));
}

#[test]
fn manager_looks_up_by_table_and_latest_wins() {
    let m = NetvarManager::from_tables(vec![
        player_table(0x100),
        RecvTable { name: "DT_BaseEntity".to_string(), props: vec![prop("m_vecOrigin", 0x138, None)] },
        player_table(0x200),
    ]);
    assert_eq!(m.len(), 3);
    assert_eq!(m.get_offset("DT_CSPlayer", "m_iHealth"), Some(0x200));
    assert_eq!(m.get_offset("DT_BaseEntity", "m_vecOrigin"), Some(0x138));
    assert_eq!(m.get_offset("DT_BaseEntity", "m_iHealth"), None);
    assert_eq!(m.get_offset("DT_Missing", "m_iHealth"), None);
}
