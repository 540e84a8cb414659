//! The persisted API connection mode: connect directly or through a proxy.
//!
//! The mode is cached on disk between runs.  The cache encoding and its
//! decoding are defined and verified here, over plain bytes; the I/O layer
//! only reads and writes those bytes.  A missing or undecodable cache is a
//! normal condition and reads as the direct mode.

use vstd::prelude::*;

use crate::net::{Ipv4Address, SocketAddress};

verus! {

/// Settings for reaching the API through a Shadowsocks proxy: the peer to
/// connect to, and the password and cipher name as their UTF-8 bytes.
#[derive(Clone, Debug, PartialEq, Eq)]
pub struct ShadowsocksProxySettings {
    pub peer: SocketAddress,
    pub password: Vec<u8>,
    pub cipher: Vec<u8>,
}

/// Mathematical value of [`ShadowsocksProxySettings`].
pub struct ShadowsocksSettingsView {
    pub peer: SocketAddress,
    pub password: Seq<u8>,
    pub cipher: Seq<u8>,
}

impl View for ShadowsocksProxySettings {
    type V = ShadowsocksSettingsView;

    open spec fn view(&self) -> ShadowsocksSettingsView {
        ShadowsocksSettingsView { peer: self.peer, password: self.password@, cipher: self.cipher@ }
    }
}

/// Configuration of a proxy to reach the API through.
#[derive(Clone, Debug, PartialEq, Eq)]
pub enum ProxyConfig {
    Shadowsocks(ShadowsocksProxySettings),
}

/// How the API is reached: directly, or through a proxy.
#[derive(Clone, Debug, PartialEq, Eq)]
pub enum ApiConnectionMode {
    /// Connect directly to the target.
    Direct,
    /// Connect to the destination via a proxy.
    Proxied(ProxyConfig),
}

/// Mathematical value of [`ApiConnectionMode`].
pub enum ApiConnectionModeView {
    Direct,
    Shadowsocks(ShadowsocksSettingsView),
}

impl View for ApiConnectionMode {
    type V = ApiConnectionModeView;

    open spec fn view(&self) -> ApiConnectionModeView {
        match self {
            ApiConnectionMode::Direct => ApiConnectionModeView::Direct,
            ApiConnectionMode::Proxied(ProxyConfig::Shadowsocks(ss)) =>
                ApiConnectionModeView::Shadowsocks(ss@),
        }
    }
}

/// Error when the persisted configuration cannot be decoded.
#[derive(Clone, Copy, Debug, PartialEq, Eq)]
pub enum CacheError {
    DecodeFailed,
}

/// A 16-bit length or port as two little-endian bytes.
pub open spec fn spec_le16(n: int) -> Seq<u8> {
    seq![(n % 256) as u8, ((n / 256) % 256) as u8]
}

/// The value of two little-endian bytes.
pub open spec fn spec_u16_of(lo: u8, hi: u8) -> int {
    lo + 256 * hi
}

/// Whether the mode fits the cache encoding: the two byte strings carry
/// their length as 16 bits.
pub open spec fn spec_encodable(m: ApiConnectionModeView) -> bool {
    match m {
        ApiConnectionModeView::Direct => true,
        ApiConnectionModeView::Shadowsocks(s) => s.password.len() < 65536 && s.cipher.len()
            < 65536,
    }
}

/// The fixed-width head of an encoded proxied mode: a tag byte, the peer
/// address by octets, its port, and the password length.
pub open spec fn spec_proxy_header(s: ShadowsocksSettingsView) -> Seq<u8> {
    seq![1u8, s.peer.ip.o0, s.peer.ip.o1, s.peer.ip.o2, s.peer.ip.o3] + spec_le16(
        s.peer.port as int,
    ) + spec_le16(s.password.len() as int)
}

/// The cache encoding of a connection mode: one zero byte for the direct
/// mode; for a proxied mode the header, the password bytes, the cipher
/// length and the cipher bytes.
pub open spec fn spec_encode(m: ApiConnectionModeView) -> Seq<u8> {
    match m {
        ApiConnectionModeView::Direct => seq![0u8],
        ApiConnectionModeView::Shadowsocks(s) => spec_proxy_header(s) + s.password + spec_le16(
            s.cipher.len() as int,
        ) + s.cipher,
    }
}

/// The decoding of a cache file's bytes: `None` on anything malformed.
pub open spec fn spec_decode(b: Seq<u8>) -> Option<ApiConnectionModeView> {
    if b.len() == 1 && b[0] == 0 {
        Some(ApiConnectionModeView::Direct)
    } else if b.len() >= 11 && b[0] == 1 {
        let plen: int = spec_u16_of(b[7], b[8]);
        if b.len() >= 11 + plen {
            let clen: int = spec_u16_of(b[9 + plen], b[10 + plen]);
            if b.len() == 11 + plen + clen {
                Some(
                    ApiConnectionModeView::Shadowsocks(
                        ShadowsocksSettingsView {
                            peer: SocketAddress {
                                ip: Ipv4Address { o0: b[1], o1: b[2], o2: b[3], o3: b[4] },
                                port: spec_u16_of(b[5], b[6]) as u16,
                            },
                            password: b.subrange(9, 9 + plen),
                            cipher: b.subrange(11 + plen, b.len() as int),
                        },
                    ),
                )
            } else {
                None
            }
        } else {
            None
        }
    } else {
        None
    }
}

/// A 16-bit value survives the split into two little-endian bytes.
proof fn lemma_le16_round(n: int)
    requires
        0 <= n < 65536,
    ensures
        0 <= n % 256 < 256,
        0 <= n / 256 < 256,
        spec_u16_of(spec_le16(n)[0], spec_le16(n)[1]) == n,
{
    assert(0 <= n % 256 < 256 && 0 <= n / 256 < 256 && n % 256 + 256 * (n / 256) == n)
        by (nonlinear_arith)
        requires 0 <= n < 65536,
    ;
    assert((n / 256) % 256 == n / 256) by (nonlinear_arith)
        requires 0 <= n / 256 < 256,
    ;
}

/// Decoding inverts encoding: an encodable mode written to the cache and
/// read back yields the same value.
pub proof fn lemma_cache_round_trip(m: ApiConnectionModeView)
    requires
        spec_encodable(m),
    ensures
        spec_decode(spec_encode(m)) == Some(m),
{
    match m {
        ApiConnectionModeView::Direct => {
            assert(spec_encode(m).len() == 1);
        },
        ApiConnectionModeView::Shadowsocks(s) => {
            let b = spec_encode(m);
            let h = spec_proxy_header(s);
            let plen: int = s.password.len() as int;
            let clen: int = s.cipher.len() as int;
            lemma_le16_round(s.peer.port as int);
            lemma_le16_round(plen);
            lemma_le16_round(clen);
            assert(h.len() == 9);
            assert(b.len() == 11 + plen + clen);
            assert(b[0] == 1);
            assert(spec_u16_of(b[7], b[8]) == plen);
            assert(b[9 + plen] == spec_le16(clen)[0]);
            assert(b[10 + plen] == spec_le16(clen)[1]);
            assert(spec_u16_of(b[9 + plen], b[10 + plen]) == clen);
            assert(spec_u16_of(b[5], b[6]) == s.peer.port as int);
            assert(b.subrange(9, 9 + plen) =~= s.password);
            assert(b.subrange(11 + plen, b.len() as int) =~= s.cipher);
            assert(spec_decode(b) matches Some(d) && d == m);
        },
    }
}

impl ApiConnectionMode {
    /// The cache encoding of this mode, or `None` when a password or a
    /// cipher name is too long for the encoding.
    pub fn encode(&self) -> (r: Option<Vec<u8>>)
        ensures
            r is Some <==> spec_encodable(self@),
            r matches Some(bytes) ==> bytes@ == spec_encode(self@),
    {
        match self {
            ApiConnectionMode::Direct => {
                let mut bytes: Vec<u8> = Vec::new();
                bytes.push(0u8);
                proof {
                    assert(bytes@ =~= spec_encode(self@));
                }
                Some(bytes)
            },
            ApiConnectionMode::Proxied(ProxyConfig::Shadowsocks(ss)) => {
                if ss.password.len() >= 65536 || ss.cipher.len() >= 65536 {
                    return None;
                }
                proof {
                    lemma_le16_round(ss.password@.len() as int);
                    lemma_le16_round(ss.cipher@.len() as int);
                    lemma_le16_round(ss.peer.port as int);
                }
                let mut bytes: Vec<u8> = Vec::new();
                bytes.push(1u8);
                bytes.push(ss.peer.ip.o0);
                bytes.push(ss.peer.ip.o1);
                bytes.push(ss.peer.ip.o2);
                bytes.push(ss.peer.ip.o3);
                bytes.push((ss.peer.port % 256) as u8);
                bytes.push((ss.peer.port / 256) as u8);
                let plen: usize = ss.password.len();
                bytes.push((plen % 256) as u8);
                bytes.push((plen / 256) as u8);
                proof {
                    assert(bytes@ =~= spec_proxy_header(ss@));
                }
                let mut i: usize = 0;
                while i < plen
                    invariant
                        i <= plen,
                        plen == ss.password@.len(),
                        bytes@ == spec_proxy_header(ss@) + ss.password@.subrange(0, i as int),
                    decreases plen - i,
                {
                    bytes.push(ss.password[i]);
                    proof {
                        assert(bytes@ =~= spec_proxy_header(ss@) + ss.password@.subrange(
                            0,
                            i as int + 1,
                        ));
                    }
                    i = i + 1;
                }
                proof {
                    assert(ss.password@.subrange(0, plen as int) =~= ss.password@);
                }
                let clen: usize = ss.cipher.len();
                bytes.push((clen % 256) as u8);
                bytes.push((clen / 256) as u8);
                let ghost with_clen = spec_proxy_header(ss@) + ss.password@ + spec_le16(
                    clen as int,
                );
                proof {
                    assert(bytes@ =~= with_clen);
                }
                let mut j: usize = 0;
                while j < clen
                    invariant
                        j <= clen,
                        clen == ss.cipher@.len(),
                        with_clen == spec_proxy_header(ss@) + ss.password@ + spec_le16(
                            clen as int,
                        ),
                        bytes@ == with_clen + ss.cipher@.subrange(0, j as int),
                    decreases clen - j,
                {
                    bytes.push(ss.cipher[j]);
                    proof {
                        assert(bytes@ =~= with_clen + ss.cipher@.subrange(0, j as int + 1));
                    }
                    j = j + 1;
                }
                proof {
                    assert(ss.cipher@.subrange(0, clen as int) =~= ss.cipher@);
                    assert(bytes@ =~= spec_encode(self@));
                }
                Some(bytes)
            },
        }
    }

    /// Decodes a cache file's bytes; `None` on anything malformed.
    pub fn decode(bytes: &Vec<u8>) -> (r: Option<ApiConnectionMode>)
        ensures
            r is Some <==> spec_decode(bytes@) is Some,
            r matches Some(mode) ==> Some(mode@) == spec_decode(bytes@),
    {
        if bytes.len() == 1 && bytes[0] == 0 {
            return Some(ApiConnectionMode::Direct);
        }
        if bytes.len() < 11 || bytes[0] != 1 {
            return None;
        }
        let plen: usize = (bytes[7] as usize) + 256 * (bytes[8] as usize);
        if bytes.len() < 11 + plen {
            return None;
        }
        let clen: usize = (bytes[9 + plen] as usize) + 256 * (bytes[10 + plen] as usize);
        if bytes.len() != 11 + plen + clen {
            return None;
        }
        let port: u16 = (bytes[5] as u16) + 256 * (bytes[6] as u16);
        let mut password: Vec<u8> = Vec::new();
        let mut i: usize = 0;
        while i < plen
            invariant
                i <= plen,
                plen < 65536,
                11 + plen <= bytes@.len(),
                password@ == bytes@.subrange(9, 9 + i as int),
            decreases plen - i,
        {
            password.push(bytes[9 + i]);
            proof {
                assert(password@ =~= bytes@.subrange(9, 9 + (i as int + 1)));
            }
            i = i + 1;
        }
        let mut cipher: Vec<u8> = Vec::new();
        let mut j: usize = 0;
        while j < clen
            invariant
                j <= clen,
                plen < 65536,
                clen < 65536,
                11 + plen + clen == bytes@.len(),
                cipher@ == bytes@.subrange(11 + plen as int, 11 + plen as int + j as int),
            decreases clen - j,
        {
            cipher.push(bytes[11 + plen + j]);
            proof {
                assert(cipher@ =~= bytes@.subrange(
                    11 + plen as int,
                    11 + plen as int + (j as int + 1),
                ));
            }
            j = j + 1;
        }
        let mode = ApiConnectionMode::Proxied(
            ProxyConfig::Shadowsocks(
                ShadowsocksProxySettings {
                    peer: SocketAddress {
                        ip: Ipv4Address {
                            o0: bytes[1],
                            o1: bytes[2],
                            o2: bytes[3],
                            o3: bytes[4],
                        },
                        port,
                    },
                    password,
                    cipher,
                },
            ),
        );
        proof {
            assert(spec_decode(bytes@) matches Some(d) && d == mode@);
        }
        Some(mode)
    }

    /// Reads the connection mode out of the cache file's content.  An
    /// absent cache is a normal condition and reads as the direct mode;
    /// content that does not decode is an error.
    pub fn from_cache(content: Option<&Vec<u8>>) -> (r: Result<ApiConnectionMode, CacheError>)
        ensures
            content is None ==> r == Ok::<ApiConnectionMode, CacheError>(ApiConnectionMode::Direct),
            content matches Some(bytes) ==> {
                &&& (r is Err <==> spec_decode(bytes@) is None)
                &&& (r matches Ok(mode) ==> Some(mode@) == spec_decode(bytes@))
                &&& (r is Err ==> r == Err::<ApiConnectionMode, CacheError>(
                    CacheError::DecodeFailed,
                ))
            },
    {
        match content {
            None => Ok(ApiConnectionMode::Direct),
            Some(bytes) => match Self::decode(bytes) {
                Some(mode) => Ok(mode),
                None => Err(CacheError::DecodeFailed),
            },
        }
    }

    /// Reads the connection mode out of the cache file's content, falling
    /// back to the direct mode whenever the read failed or the content
    /// does not decode.
    pub fn try_from_cache(content: Option<&Vec<u8>>) -> (r: ApiConnectionMode)
        ensures
            content is None ==> r == ApiConnectionMode::Direct,
            content matches Some(bytes) ==> match spec_decode(bytes@) {
                Some(m) => r@ == m,
                None => r == ApiConnectionMode::Direct,
            },
    {
        match Self::from_cache(content) {
            Ok(mode) => mode,
            Err(_) => ApiConnectionMode::Direct,
        }
    }

    /// Returns the remote address, or `None` for the direct mode.
    pub fn get_endpoint(&self) -> (r: Option<SocketAddress>)
        ensures
            r == match *self {
                ApiConnectionMode::Proxied(ProxyConfig::Shadowsocks(ss)) => Some(ss.peer),
                ApiConnectionMode::Direct => None::<SocketAddress>,
            },
    {
        match self {
            ApiConnectionMode::Proxied(ProxyConfig::Shadowsocks(ss)) => Some(ss.peer),
            ApiConnectionMode::Direct => None,
        }
    }

    /// Whether the mode goes through a proxy.
    pub fn is_proxy(&self) -> (r: bool)
        ensures
            r == !(*self matches ApiConnectionMode::Direct),
    {
        match self {
            ApiConnectionMode::Direct => false,
            ApiConnectionMode::Proxied(_) => true,
        }
    }
}

/// Stream that represents an API connection: the established transport is
/// carried through opaquely for the I/O layer that drives it.
pub struct ApiConnection<T>(pub Box<T>);

impl<T> ApiConnection<T> {
    pub fn new(conn: Box<T>) -> (r: Self)
        ensures
            r.0 == conn,
    {
        ApiConnection(conn)
    }
}

} // verus!
