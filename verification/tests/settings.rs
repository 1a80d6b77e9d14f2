use monoio_quiche::quic::MAX_VARINT;
use monoio_quiche::settings::{H3Settings, QuicSettings};

fn no_settings() -> QuicSettings {
    QuicSettings {
        max_idle_timeout: None,
        max_recv_udp_payload_size: None,
        initial_max_data: None,
        initial_max_stream_data_bidi_local: None,
        initial_max_stream_data_bidi_remote: None,
        initial_max_stream_data_uni: None,
        initial_max_streams_bidi: None,
        initial_max_streams_uni: None,
        ack_delay_exponent: None,
        max_ack_delay: None,
        active_connection_id_limit: None,
    }
}

fn no_h3_settings() -> H3Settings {
    H3Settings {
        max_field_section_size: None,
        qpack_max_table_capacity: None,
        qpack_blocked_streams: None,
    }
}

#[test]
fn default_settings_fit() {
    assert!(no_settings().fits());
    assert!(no_h3_settings().fits());
}

#[test]
fn settings_fit_up_to_the_limit() {
    let mut settings = no_settings();
    settings.max_idle_timeout = Some(MAX_VARINT);
    settings.max_recv_udp_payload_size = Some(MAX_VARINT as usize);
    settings.initial_max_data = Some(MAX_VARINT);
    settings.initial_max_stream_data_bidi_local = Some(MAX_VARINT);
    settings.initial_max_stream_data_bidi_remote = Some(MAX_VARINT);
    settings.initial_max_stream_data_uni = Some(MAX_VARINT);
    settings.initial_max_streams_bidi = Some(MAX_VARINT);
    settings.initial_max_streams_uni = Some(MAX_VARINT);
    settings.ack_delay_exponent = Some(63);
    settings.max_ack_delay = Some(MAX_VARINT);
    settings.active_connection_id_limit = Some(MAX_VARINT);
    assert!(settings.fits());
}

#[test]
fn settings_that_no_packet_carries_do_not_fit() {
    let above = Some(MAX_VARINT + 1);
    let cases: Vec<QuicSettings> = vec![
        QuicSettings { max_idle_timeout: above, ..no_settings() },
        QuicSettings { max_recv_udp_payload_size: Some(MAX_VARINT as usize + 1), ..no_settings() },
        QuicSettings { initial_max_data: above, ..no_settings() },
        QuicSettings { initial_max_stream_data_bidi_local: above, ..no_settings() },
        QuicSettings { initial_max_stream_data_bidi_remote: above, ..no_settings() },
        QuicSettings { initial_max_stream_data_uni: above, ..no_settings() },
        QuicSettings { initial_max_streams_bidi: above, ..no_settings() },
        QuicSettings { initial_max_streams_uni: above, ..no_settings() },
        QuicSettings { ack_delay_exponent: Some(64), ..no_settings() },
        QuicSettings { max_ack_delay: above, ..no_settings() },
        QuicSettings { active_connection_id_limit: above, ..no_settings() },
    ];
    for settings in &cases {
        assert!(!settings.fits());
    }
}

#[test]
fn h3_settings_fit_up_to_the_limit() {
    let mut settings = no_h3_settings();
    settings.max_field_section_size = Some(MAX_VARINT);
    settings.qpack_max_table_capacity = Some(MAX_VARINT);
    settings.qpack_blocked_streams = Some(MAX_VARINT);
    assert!(settings.fits());
    assert!(settings.config().is_some());
    for above in [MAX_VARINT + 1, u64::MAX] {
        assert!(!H3Settings { max_field_section_size: Some(above), ..no_h3_settings() }.fits());
        assert!(!H3Settings { qpack_max_table_capacity: Some(above), ..no_h3_settings() }.fits());
        assert!(!H3Settings { qpack_blocked_streams: Some(above), ..no_h3_settings() }.fits());
    }
}

#[test]
fn h3_settings_that_no_packet_carries_make_no_configuration() {
    assert!(no_h3_settings().config().is_some());
    let settings = H3Settings { qpack_blocked_streams: Some(MAX_VARINT + 1), ..no_h3_settings() };
    assert!(settings.config().is_none());
    let mut config = quiche::h3::Config::new().unwrap();
    assert!(!settings.apply(&mut config));
    assert!(no_h3_settings().apply(&mut config));
}
