use openposterdb_api::upgrade::{migrate_name, migration_statements};

#[test]
fn migrate_name_poster_default() {
    // Poster, medium badge, medium image size, default (rounded) look.
    assert_eq!(
        migrate_name("tt1234567@mil.pbc.sh.li.dh.bm.zm.jpg"),
        Some("tt1234567@mil.pbc.sh.li.dh.bm.shr.bgd.zm.jpg".to_string()),
    );
}

#[test]
fn migrate_name_poster_with_split() {
    // Split posters keep their `.x1` token after the inserted shape/bg.
    assert_eq!(
        migrate_name("tt1234567@mil.pbc.sh.li.dh.bm.x1.zm.jpg"),
        Some("tt1234567@mil.pbc.sh.li.dh.bm.shr.bgd.x1.zm.jpg".to_string()),
    );
}

#[test]
fn migrate_name_logo() {
    assert_eq!(
        migrate_name("tt1234567_l_t@mil.sv.lo.bm.zm.png"),
        Some("tt1234567_l_t@mil.sv.lo.bm.shr.bgd.zm.png".to_string()),
    );
}

#[test]
fn migrate_name_backdrop() {
    assert_eq!(
        migrate_name("tt1234567_b_f@mil.ptr.sv.lt.dv.bm.zm.jpg"),
        Some("tt1234567_b_f@mil.ptr.sv.lt.dv.bm.shr.bgd.zm.jpg".to_string()),
    );
}

#[test]
fn migrate_name_episode_with_blur() {
    // Blur token stays after the inserted shape/background suffixes.
    assert_eq!(
        migrate_name("tt1234567_e_t@m.ptr.sv.lo.dv.bl.blur.zm.jpg"),
        Some("tt1234567_e_t@m.ptr.sv.lo.dv.bl.shr.bgd.blur.zm.jpg".to_string()),
    );
}

#[test]
fn migrate_name_extra_small_and_extra_large_sizes() {
    assert_eq!(
        migrate_name("tt1@m.pbc.sh.lt.dh.bxs.zs.jpg"),
        Some("tt1@m.pbc.sh.lt.dh.bxs.shr.bgd.zs.jpg".to_string()),
    );
    assert_eq!(
        migrate_name("tt1@m.pbc.sh.lt.dh.bxl.zvl.jpg"),
        Some("tt1@m.pbc.sh.lt.dh.bxl.shr.bgd.zvl.jpg".to_string()),
    );
}

#[test]
fn migrate_name_bottom_left_large_does_not_match_position() {
    // Position bottom-left (`.pbl`) must not be mistaken for the large
    // badge size (`.bl`) — only the size token gets the suffix.
    assert_eq!(
        migrate_name("tt1234567_b_f@mil.pbl.sv.lt.dv.bl.zm.jpg"),
        Some("tt1234567_b_f@mil.pbl.sv.lt.dv.bl.shr.bgd.zm.jpg".to_string()),
    );
}

#[test]
fn migrate_name_already_migrated() {
    assert_eq!(migrate_name("tt1234567@mil.pbc.sh.li.dh.bm.shr.bgd.zm.jpg"), None);
}

#[test]
fn migrate_name_no_size_token() {
    // Pre-badge-size orphan or unrelated file — left untouched.
    assert_eq!(migrate_name("tt1234567.jpg"), None);
    assert_eq!(migrate_name("abc123.jpg"), None);
}

// --- own tests ---

#[test]
fn migrating_twice_changes_nothing() {
    let once = migrate_name("tt1@m.pbc.sh.lt.dh.bs.zs.jpg").unwrap();
    assert_eq!(once, "tt1@m.pbc.sh.lt.dh.bs.shr.bgd.zs.jpg");
    assert_eq!(migrate_name(&once), None);
}

#[test]
fn migration_statements_cover_each_size_token() {
    let v = migration_statements();
    assert_eq!(v.len(), 5);
    assert_eq!(
        v[2],
        "UPDATE image_meta SET cache_key = substr(cache_key, 1, instr(cache_key, '.bm.') - 1) || '.bm.shr.bgd.' || substr(cache_key, instr(cache_key, '.bm.') + 4) WHERE instr(cache_key, '.bm.') > 0 AND instr(cache_key, '.bg') = 0"
    );
    assert!(v[0].contains("'.bxs.'") && v[0].contains("+ 5)"));
}
