//! The settings that a connection and its HTTP/3 layer are made with. The peer is
//! told of them, so their values have to fit in a packet.
use crate::error::Error;
use crate::http3;
use crate::quic;
use quiche::h3::Config as QuicheH3Config;
use quiche::Config as QuicheConfig;
use quiche::Error as QuicheError;
use vstd::prelude::*;

verus! {

/// A value is not given, or no larger than a limit.
pub open spec fn within(value: Option<u64>, limit: int) -> bool {
    value matches Some(v) ==> v <= limit
}

/// Whether a value is not given, or no larger than a limit.
fn is_within(value: Option<u64>, limit: u64) -> (fits: bool)
    ensures
        fits == within(value, limit as int),
{
    match value {
        Some(v) => v <= limit,
        None => true,
    }
}

/// The settings of a connection that are numbers. What is not given stays as it is.
pub struct QuicSettings {
    /// How long, in milliseconds, the connection may stay silent.
    pub max_idle_timeout: Option<u64>,
    /// The size of the largest datagram that is taken.
    pub max_recv_udp_payload_size: Option<usize>,
    /// How many bytes the peer may send on all streams together.
    pub initial_max_data: Option<u64>,
    /// How many bytes the peer may send on a two-way stream opened here.
    pub initial_max_stream_data_bidi_local: Option<u64>,
    /// How many bytes the peer may send on a two-way stream that it opened.
    pub initial_max_stream_data_bidi_remote: Option<u64>,
    /// How many bytes the peer may send on a one-way stream.
    pub initial_max_stream_data_uni: Option<u64>,
    /// How many two-way streams the peer may open.
    pub initial_max_streams_bidi: Option<u64>,
    /// How many one-way streams the peer may open.
    pub initial_max_streams_uni: Option<u64>,
    /// The exponent of the power of two that acknowledgement delays are divided by.
    pub ack_delay_exponent: Option<u64>,
    /// How long, in milliseconds, an acknowledgement may be held back.
    pub max_ack_delay: Option<u64>,
    /// How many connection identifiers of the peer are kept.
    pub active_connection_id_limit: Option<u64>,
}

/// The settings of the HTTP/3 layer that are numbers. What is not given stays as it
/// is.
pub struct H3Settings {
    /// How large a list of header fields may be.
    pub max_field_section_size: Option<u64>,
    /// How large the table for compressed header fields may grow.
    pub qpack_max_table_capacity: Option<u64>,
    /// How many streams may wait for that table.
    pub qpack_blocked_streams: Option<u64>,
}

impl QuicSettings {
    /// Every value that is given can be sent and worked with.
    pub open spec fn fit(self) -> bool {
        &&& within(self.max_idle_timeout, quic::MAX_VARINT as int)
        &&& self.max_recv_udp_payload_size matches Some(v) ==> v <= quic::MAX_VARINT
        &&& within(self.initial_max_data, quic::MAX_VARINT as int)
        &&& within(self.initial_max_stream_data_bidi_local, quic::MAX_VARINT as int)
        &&& within(self.initial_max_stream_data_bidi_remote, quic::MAX_VARINT as int)
        &&& within(self.initial_max_stream_data_uni, quic::MAX_VARINT as int)
        &&& within(self.initial_max_streams_bidi, quic::MAX_VARINT as int)
        &&& within(self.initial_max_streams_uni, quic::MAX_VARINT as int)
        &&& within(self.ack_delay_exponent, 63)
        &&& within(self.max_ack_delay, quic::MAX_VARINT as int)
        &&& within(self.active_connection_id_limit, quic::MAX_VARINT as int)
        &&& within(self.active_connection_id_limit, usize::MAX as int / 3)
    }

    /// A configuration, with the values that are given in it.
    pub open spec fn applied(self, config: QuicheConfig) -> QuicheConfig {
        let config = match self.max_idle_timeout {
            Some(v) => quic::with_max_idle_timeout(config, v),
            None => config,
        };
        let config = match self.max_recv_udp_payload_size {
            Some(v) => quic::with_max_recv_udp_payload_size(config, v),
            None => config,
        };
        let config = match self.initial_max_data {
            Some(v) => quic::with_initial_max_data(config, v),
            None => config,
        };
        let config = match self.initial_max_stream_data_bidi_local {
            Some(v) => quic::with_initial_max_stream_data_bidi_local(config, v),
            None => config,
        };
        let config = match self.initial_max_stream_data_bidi_remote {
            Some(v) => quic::with_initial_max_stream_data_bidi_remote(config, v),
            None => config,
        };
        let config = match self.initial_max_stream_data_uni {
            Some(v) => quic::with_initial_max_stream_data_uni(config, v),
            None => config,
        };
        let config = match self.initial_max_streams_bidi {
            Some(v) => quic::with_initial_max_streams_bidi(config, v),
            None => config,
        };
        let config = match self.initial_max_streams_uni {
            Some(v) => quic::with_initial_max_streams_uni(config, v),
            None => config,
        };
        let config = match self.ack_delay_exponent {
            Some(v) => quic::with_ack_delay_exponent(config, v),
            None => config,
        };
        let config = match self.max_ack_delay {
            Some(v) => quic::with_max_ack_delay(config, v),
            None => config,
        };
        let config = match self.active_connection_id_limit {
            Some(v) => quic::with_active_connection_id_limit(config, v),
            None => config,
        };
        config
    }

    /// Whether every value that is given can be sent and worked with.
    pub fn fits(&self) -> (fits: bool)
        ensures
            fits == self.fit(),
    {
        let payload_fits = match self.max_recv_udp_payload_size {
            Some(v) => v as u64 <= quic::MAX_VARINT,
            None => true,
        };
        is_within(self.max_idle_timeout, quic::MAX_VARINT)
            && payload_fits
            && is_within(self.initial_max_data, quic::MAX_VARINT)
            && is_within(self.initial_max_stream_data_bidi_local, quic::MAX_VARINT)
            && is_within(self.initial_max_stream_data_bidi_remote, quic::MAX_VARINT)
            && is_within(self.initial_max_stream_data_uni, quic::MAX_VARINT)
            && is_within(self.initial_max_streams_bidi, quic::MAX_VARINT)
            && is_within(self.initial_max_streams_uni, quic::MAX_VARINT)
            && is_within(self.ack_delay_exponent, 63)
            && is_within(self.max_ack_delay, quic::MAX_VARINT)
            && is_within(self.active_connection_id_limit, quic::MAX_VARINT)
            && is_within(self.active_connection_id_limit, usize::MAX as u64 / 3)
    }

    /// Puts the values that are given into a configuration. If one of them does not
    /// fit, the configuration stays as it is.
    pub fn apply(&self, config: &mut QuicheConfig) -> (done: bool)
        ensures
            done == self.fit(),
            *final(config) == (if self.fit() {
                self.applied(*old(config))
            } else {
                *old(config)
            }),
            quic::settings_fit(*old(config)) ==> quic::settings_fit(*final(config)),
    {
        if !self.fits() {
            return false;
        }
        if let Some(v) = self.max_idle_timeout {
            config.set_max_idle_timeout(v);
        }
        if let Some(v) = self.max_recv_udp_payload_size {
            config.set_max_recv_udp_payload_size(v);
        }
        if let Some(v) = self.initial_max_data {
            config.set_initial_max_data(v);
        }
        if let Some(v) = self.initial_max_stream_data_bidi_local {
            config.set_initial_max_stream_data_bidi_local(v);
        }
        if let Some(v) = self.initial_max_stream_data_bidi_remote {
            config.set_initial_max_stream_data_bidi_remote(v);
        }
        if let Some(v) = self.initial_max_stream_data_uni {
            config.set_initial_max_stream_data_uni(v);
        }
        if let Some(v) = self.initial_max_streams_bidi {
            config.set_initial_max_streams_bidi(v);
        }
        if let Some(v) = self.initial_max_streams_uni {
            config.set_initial_max_streams_uni(v);
        }
        if let Some(v) = self.ack_delay_exponent {
            config.set_ack_delay_exponent(v);
        }
        if let Some(v) = self.max_ack_delay {
            config.set_max_ack_delay(v);
        }
        if let Some(v) = self.active_connection_id_limit {
            config.set_active_connection_id_limit(v);
        }
        true
    }

    /// A configuration for a version of QUIC with the values that are given, or
    /// `None` if one of them does not fit.
    pub fn config(&self, version: u32) -> (out: Result<Option<QuicheConfig>, Error>)
        ensures
            exists|r: Result<QuicheConfig, QuicheError>|
                {
                    &&& #[trigger] quic::config_outcome(version, r)
                    &&& match r {
                        Ok(config) => out == Ok::<Option<QuicheConfig>, Error>(
                            if self.fit() {
                                Some(self.applied(config))
                            } else {
                                None
                            },
                        ),
                        Err(e) => out matches Err(error) && error == Error::Quiche(e),
                    }
                },
            out matches Ok(Some(config)) ==> quic::settings_fit(config),
    {
        match QuicheConfig::new(version) {
            Ok(mut config) => {
                if self.apply(&mut config) {
                    Ok(Some(config))
                } else {
                    Ok(None)
                }
            },
            Err(e) => Err(Error::Quiche(e)),
        }
    }
}

impl H3Settings {
    /// Every value that is given can be sent.
    pub open spec fn fit(self) -> bool {
        &&& within(self.max_field_section_size, quic::MAX_VARINT as int)
        &&& within(self.qpack_max_table_capacity, quic::MAX_VARINT as int)
        &&& within(self.qpack_blocked_streams, quic::MAX_VARINT as int)
    }

    /// A configuration, with the values that are given in it.
    pub open spec fn applied(self, config: QuicheH3Config) -> QuicheH3Config {
        let config = match self.max_field_section_size {
            Some(v) => http3::with_max_field_section_size(config, v),
            None => config,
        };
        let config = match self.qpack_max_table_capacity {
            Some(v) => http3::with_qpack_max_table_capacity(config, v),
            None => config,
        };
        let config = match self.qpack_blocked_streams {
            Some(v) => http3::with_qpack_blocked_streams(config, v),
            None => config,
        };
        config
    }

    /// Whether every value that is given can be sent.
    pub fn fits(&self) -> (fits: bool)
        ensures
            fits == self.fit(),
    {
        is_within(self.max_field_section_size, quic::MAX_VARINT)
            && is_within(self.qpack_max_table_capacity, quic::MAX_VARINT)
            && is_within(self.qpack_blocked_streams, quic::MAX_VARINT)
    }

    /// Puts the values that are given into a configuration. If one of them does not
    /// fit, the configuration stays as it is.
    pub fn apply(&self, config: &mut QuicheH3Config) -> (done: bool)
        ensures
            done == self.fit(),
            *final(config) == (if self.fit() {
                self.applied(*old(config))
            } else {
                *old(config)
            }),
            http3::h3_settings_fit(*old(config)) ==> http3::h3_settings_fit(*final(config)),
    {
        if !self.fits() {
            return false;
        }
        if let Some(v) = self.max_field_section_size {
            config.set_max_field_section_size(v);
        }
        if let Some(v) = self.qpack_max_table_capacity {
            config.set_qpack_max_table_capacity(v);
        }
        if let Some(v) = self.qpack_blocked_streams {
            config.set_qpack_blocked_streams(v);
        }
        true
    }

    /// A configuration with the values that are given, or `None` if one of them does
    /// not fit.
    pub fn config(&self) -> (out: Option<QuicheH3Config>)
        ensures
            out is Some <==> self.fit(),
            out matches Some(config) ==> http3::h3_settings_fit(config) && exists|fresh:
                QuicheH3Config| #[trigger]
                http3::is_default_h3_config(fresh) && config == self.applied(fresh),
    {
        match QuicheH3Config::new() {
            Ok(mut config) => {
                if self.apply(&mut config) {
                    Some(config)
                } else {
                    None
                }
            },
            Err(_) => None,
        }
    }
}

} // verus!
