use rustarok_client::job_names::{job_name, job_name_table, JobSpriteId, PLAYABLE_CHAR_SPRITES};

#[test]
fn names_are_decoded_from_windows_1252() {
    assert_eq!(job_name(JobSpriteId::NOVICE), "\u{C3}\u{CA}\u{BA}\u{B8}\u{C0}\u{DA}");
    assert_eq!(job_name(JobSpriteId::MAGICIAN), "¸¶¹Ý»Ç");
    let table = job_name_table();
    assert_eq!(table.len(), 64);
    assert_eq!(table[0].0, JobSpriteId::NOVICE);
    assert_eq!(table[63].0, JobSpriteId::MECHANIC2);
    assert_eq!(table[2].1, "¸¶¹Ý»Ç");
    for (id, name) in &table {
        assert_eq!(*name, job_name(*id));
        assert!(!name.is_empty());
    }
    assert_eq!(PLAYABLE_CHAR_SPRITES[0], JobSpriteId::CRUSADER);
}
