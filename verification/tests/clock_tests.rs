use rms_recorder::clock::{clock_date_time, clock_date_time_millis, clock_hms, clock_rfc3339, session_id};

fn digits(s: &str) -> bool {
    !s.is_empty() && s.chars().all(|c| c.is_ascii_digit())
}

#[test]
fn clock_texts_have_their_shapes() {
    let hms = clock_hms();
    assert_eq!(hms.len(), 8);
    assert_eq!(&hms[2..3], ":");
    assert!(digits(&hms[0..2]) && digits(&hms[3..5]) && digits(&hms[6..8]));

    let dt = clock_date_time();
    assert_eq!(dt.len(), 19);
    assert_eq!(&dt[4..5], "-");
    assert_eq!(&dt[10..11], " ");

    let ms = clock_date_time_millis();
    assert_eq!(ms.len(), 23);
    assert_eq!(&ms[19..20], ".");
    assert!(digits(&ms[20..23]));

    let id = session_id();
    assert_eq!(id.len(), 19);
    assert_eq!(&id[8..9], "_");
    assert_eq!(&id[15..16], "_");
    assert!(digits(&id[0..8]) && digits(&id[9..15]) && digits(&id[16..19]));

    let rfc = clock_rfc3339();
    assert_eq!(&rfc[10..11], "T");
    let off = &rfc[rfc.len() - 6..];
    assert!(off.starts_with('+') || off.starts_with('-'));
    assert_eq!(&off[3..4], ":");
}
