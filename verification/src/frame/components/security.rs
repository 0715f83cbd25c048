//! Cipher suites, key management suites, and the RSN and WPA information elements.

use crate::wire::{concat_all, push_bytes, push_le_u16, u16_le_bytes};
use vstd::prelude::*;

verus! {

/// The first three bytes of every suite selector of the 802.11 standard.
pub open spec fn rsn_oui() -> Seq<u8> {
    seq![0x00u8, 0x0Fu8, 0xACu8]
}

/// The first three bytes of every suite selector of WPA.
pub open spec fn wpa_oui() -> Seq<u8> {
    seq![0x00u8, 0x50u8, 0xF2u8]
}

/// A cipher suite of an RSN element.
#[derive(Clone, Debug, PartialEq, Eq)]
pub enum RsnCipherSuite {
    NoCipher,
    WEP,
    TKIP,
    WRAP,
    CCMP,
    WEP104,
    Unknown(Vec<u8>),
}

/// A key management suite of an RSN element.
#[derive(Clone, Debug, PartialEq, Eq)]
pub enum RsnAkmSuite {
    PSK,
    EAP,
    PSKFT,
    EAPFT,
    SAE,
    SUITEBEAP256,
    PSK256,
    EAP256,
    Unknown(Vec<u8>),
}

/// A cipher suite of a WPA element.
#[derive(Clone, Debug, PartialEq, Eq)]
pub enum WpaCipherSuite {
    Wep40,
    Wep104,
    Tkip,
    Ccmp,
    Unknown(Vec<u8>),
}

/// A key management suite of a WPA element.
#[derive(Clone, Debug, PartialEq, Eq)]
pub enum WpaAkmSuite {
    Psk,
    Eap,
    Unknown(Vec<u8>),
}

/// A [`RsnCipherSuite`] as a mathematical value.
pub ghost enum RsnCipherSuiteView {
    NoCipher,
    WEP,
    TKIP,
    WRAP,
    CCMP,
    WEP104,
    Unknown(Seq<u8>),
}

/// A [`RsnAkmSuite`] as a mathematical value.
pub ghost enum RsnAkmSuiteView {
    PSK,
    EAP,
    PSKFT,
    EAPFT,
    SAE,
    SUITEBEAP256,
    PSK256,
    EAP256,
    Unknown(Seq<u8>),
}

/// A [`WpaCipherSuite`] as a mathematical value.
pub ghost enum WpaCipherSuiteView {
    Wep40,
    Wep104,
    Tkip,
    Ccmp,
    Unknown(Seq<u8>),
}

/// A [`WpaAkmSuite`] as a mathematical value.
pub ghost enum WpaAkmSuiteView {
    Psk,
    Eap,
    Unknown(Seq<u8>),
}

impl View for RsnCipherSuite {
    type V = RsnCipherSuiteView;

    open spec fn view(&self) -> RsnCipherSuiteView {
        match self {
            RsnCipherSuite::NoCipher => RsnCipherSuiteView::NoCipher,
            RsnCipherSuite::WEP => RsnCipherSuiteView::WEP,
            RsnCipherSuite::TKIP => RsnCipherSuiteView::TKIP,
            RsnCipherSuite::WRAP => RsnCipherSuiteView::WRAP,
            RsnCipherSuite::CCMP => RsnCipherSuiteView::CCMP,
            RsnCipherSuite::WEP104 => RsnCipherSuiteView::WEP104,
            RsnCipherSuite::Unknown(d) => RsnCipherSuiteView::Unknown(d@),
        }
    }
}

impl DeepView for RsnCipherSuite {
    type V = RsnCipherSuiteView;

    open spec fn deep_view(&self) -> RsnCipherSuiteView {
        self@
    }
}

impl View for RsnAkmSuite {
    type V = RsnAkmSuiteView;

    open spec fn view(&self) -> RsnAkmSuiteView {
        match self {
            RsnAkmSuite::PSK => RsnAkmSuiteView::PSK,
            RsnAkmSuite::EAP => RsnAkmSuiteView::EAP,
            RsnAkmSuite::PSKFT => RsnAkmSuiteView::PSKFT,
            RsnAkmSuite::EAPFT => RsnAkmSuiteView::EAPFT,
            RsnAkmSuite::SAE => RsnAkmSuiteView::SAE,
            RsnAkmSuite::SUITEBEAP256 => RsnAkmSuiteView::SUITEBEAP256,
            RsnAkmSuite::PSK256 => RsnAkmSuiteView::PSK256,
            RsnAkmSuite::EAP256 => RsnAkmSuiteView::EAP256,
            RsnAkmSuite::Unknown(d) => RsnAkmSuiteView::Unknown(d@),
        }
    }
}

impl DeepView for RsnAkmSuite {
    type V = RsnAkmSuiteView;

    open spec fn deep_view(&self) -> RsnAkmSuiteView {
        self@
    }
}

impl View for WpaCipherSuite {
    type V = WpaCipherSuiteView;

    open spec fn view(&self) -> WpaCipherSuiteView {
        match self {
            WpaCipherSuite::Wep40 => WpaCipherSuiteView::Wep40,
            WpaCipherSuite::Wep104 => WpaCipherSuiteView::Wep104,
            WpaCipherSuite::Tkip => WpaCipherSuiteView::Tkip,
            WpaCipherSuite::Ccmp => WpaCipherSuiteView::Ccmp,
            WpaCipherSuite::Unknown(d) => WpaCipherSuiteView::Unknown(d@),
        }
    }
}

impl DeepView for WpaCipherSuite {
    type V = WpaCipherSuiteView;

    open spec fn deep_view(&self) -> WpaCipherSuiteView {
        self@
    }
}

impl View for WpaAkmSuite {
    type V = WpaAkmSuiteView;

    open spec fn view(&self) -> WpaAkmSuiteView {
        match self {
            WpaAkmSuite::Psk => WpaAkmSuiteView::Psk,
            WpaAkmSuite::Eap => WpaAkmSuiteView::Eap,
            WpaAkmSuite::Unknown(d) => WpaAkmSuiteView::Unknown(d@),
        }
    }
}

impl DeepView for WpaAkmSuite {
    type V = WpaAkmSuiteView;

    open spec fn deep_view(&self) -> WpaAkmSuiteView {
        self@
    }
}

/// Whether `b` is a selector of four bytes that opens with `oui`.
pub open spec fn has_oui(b: Seq<u8>, oui: Seq<u8>) -> bool {
    b.len() == 4 && b[0] == oui[0] && b[1] == oui[1] && b[2] == oui[2]
}

impl RsnCipherSuiteView {
    /// The suite that a selector of four bytes names.
    pub open spec fn of(b: Seq<u8>) -> RsnCipherSuiteView {
        if !has_oui(b, rsn_oui()) {
            RsnCipherSuiteView::Unknown(b)
        } else if b[3] == 0 {
            RsnCipherSuiteView::NoCipher
        } else if b[3] == 1 {
            RsnCipherSuiteView::WEP
        } else if b[3] == 2 {
            RsnCipherSuiteView::TKIP
        } else if b[3] == 3 {
            RsnCipherSuiteView::WRAP
        } else if b[3] == 4 {
            RsnCipherSuiteView::CCMP
        } else if b[3] == 5 {
            RsnCipherSuiteView::WEP104
        } else {
            RsnCipherSuiteView::Unknown(b)
        }
    }

    /// The selector of this suite. An unknown suite is its own bytes.
    pub open spec fn encode(self) -> Seq<u8> {
        match self {
            RsnCipherSuiteView::NoCipher => rsn_oui().push(0),
            RsnCipherSuiteView::WEP => rsn_oui().push(1),
            RsnCipherSuiteView::TKIP => rsn_oui().push(2),
            RsnCipherSuiteView::WRAP => rsn_oui().push(3),
            RsnCipherSuiteView::CCMP => rsn_oui().push(4),
            RsnCipherSuiteView::WEP104 => rsn_oui().push(5),
            RsnCipherSuiteView::Unknown(d) => d,
        }
    }

    /// An unknown suite holds four bytes that name no known suite.
    pub open spec fn wf(self) -> bool {
        self matches RsnCipherSuiteView::Unknown(d) ==> d.len() == 4 && !(has_oui(d, rsn_oui())
            && d[3] <= 5)
    }
}

impl RsnAkmSuiteView {
    /// The suite that a selector of four bytes names.
    pub open spec fn of(b: Seq<u8>) -> RsnAkmSuiteView {
        if !has_oui(b, rsn_oui()) {
            RsnAkmSuiteView::Unknown(b)
        } else if b[3] == 1 {
            RsnAkmSuiteView::EAP
        } else if b[3] == 2 {
            RsnAkmSuiteView::PSK
        } else if b[3] == 3 {
            RsnAkmSuiteView::EAPFT
        } else if b[3] == 4 {
            RsnAkmSuiteView::PSKFT
        } else if b[3] == 5 {
            RsnAkmSuiteView::EAP256
        } else if b[3] == 6 {
            RsnAkmSuiteView::PSK256
        } else if b[3] == 8 {
            RsnAkmSuiteView::SAE
        } else if b[3] == 11 {
            RsnAkmSuiteView::SUITEBEAP256
        } else {
            RsnAkmSuiteView::Unknown(b)
        }
    }

    /// The selector of this suite. An unknown suite is its own bytes.
    pub open spec fn encode(self) -> Seq<u8> {
        match self {
            RsnAkmSuiteView::EAP => rsn_oui().push(1),
            RsnAkmSuiteView::PSK => rsn_oui().push(2),
            RsnAkmSuiteView::EAPFT => rsn_oui().push(3),
            RsnAkmSuiteView::PSKFT => rsn_oui().push(4),
            RsnAkmSuiteView::EAP256 => rsn_oui().push(5),
            RsnAkmSuiteView::PSK256 => rsn_oui().push(6),
            RsnAkmSuiteView::SAE => rsn_oui().push(8),
            RsnAkmSuiteView::SUITEBEAP256 => rsn_oui().push(11),
            RsnAkmSuiteView::Unknown(d) => d,
        }
    }

    /// An unknown suite holds four bytes that name no known suite.
    pub open spec fn wf(self) -> bool {
        self matches RsnAkmSuiteView::Unknown(d) ==> d.len() == 4 && !(has_oui(d, rsn_oui()) && (1
            <= d[3] <= 6 || d[3] == 8 || d[3] == 11))
    }
}

impl WpaCipherSuiteView {
    /// The suite that a selector of four bytes names.
    pub open spec fn of(b: Seq<u8>) -> WpaCipherSuiteView {
        if !has_oui(b, wpa_oui()) {
            WpaCipherSuiteView::Unknown(b)
        } else if b[3] == 1 {
            WpaCipherSuiteView::Wep40
        } else if b[3] == 5 {
            WpaCipherSuiteView::Wep104
        } else if b[3] == 2 {
            WpaCipherSuiteView::Tkip
        } else if b[3] == 4 {
            WpaCipherSuiteView::Ccmp
        } else {
            WpaCipherSuiteView::Unknown(b)
        }
    }

    /// The selector of this suite. An unknown suite is its own bytes.
    pub open spec fn encode(self) -> Seq<u8> {
        match self {
            WpaCipherSuiteView::Wep40 => wpa_oui().push(1),
            WpaCipherSuiteView::Wep104 => wpa_oui().push(5),
            WpaCipherSuiteView::Tkip => wpa_oui().push(2),
            WpaCipherSuiteView::Ccmp => wpa_oui().push(4),
            WpaCipherSuiteView::Unknown(d) => d,
        }
    }

    /// An unknown suite holds four bytes that name no known suite.
    pub open spec fn wf(self) -> bool {
        self matches WpaCipherSuiteView::Unknown(d) ==> d.len() == 4 && !(has_oui(d, wpa_oui())
            && (d[3] == 1 || d[3] == 2 || d[3] == 4 || d[3] == 5))
    }
}

impl WpaAkmSuiteView {
    /// The suite that a selector of four bytes names.
    pub open spec fn of(b: Seq<u8>) -> WpaAkmSuiteView {
        if !has_oui(b, wpa_oui()) {
            WpaAkmSuiteView::Unknown(b)
        } else if b[3] == 1 {
            WpaAkmSuiteView::Psk
        } else if b[3] == 2 {
            WpaAkmSuiteView::Eap
        } else {
            WpaAkmSuiteView::Unknown(b)
        }
    }

    /// The selector of this suite. An unknown suite is its own bytes.
    pub open spec fn encode(self) -> Seq<u8> {
        match self {
            WpaAkmSuiteView::Psk => wpa_oui().push(1),
            WpaAkmSuiteView::Eap => wpa_oui().push(2),
            WpaAkmSuiteView::Unknown(d) => d,
        }
    }

    /// An unknown suite holds four bytes that name no known suite.
    pub open spec fn wf(self) -> bool {
        self matches WpaAkmSuiteView::Unknown(d) ==> d.len() == 4 && !(has_oui(d, wpa_oui()) && (
        d[3] == 1 || d[3] == 2))
    }
}

impl RsnCipherSuite {
    /// The bytes of this suite on the wire.
    pub fn encode(&self) -> (bytes: Vec<u8>)
        ensures
            bytes@ == self@.encode(),
    {
        let bytes = match self {
            RsnCipherSuite::NoCipher => vec![0x00, 0x0F, 0xAC, 0x00],
            RsnCipherSuite::WEP => vec![0x00, 0x0F, 0xAC, 0x01],
            RsnCipherSuite::TKIP => vec![0x00, 0x0F, 0xAC, 0x02],
            RsnCipherSuite::WRAP => vec![0x00, 0x0F, 0xAC, 0x03],
            RsnCipherSuite::CCMP => vec![0x00, 0x0F, 0xAC, 0x04],
            RsnCipherSuite::WEP104 => vec![0x00, 0x0F, 0xAC, 0x05],
            RsnCipherSuite::Unknown(data) => data.clone(),
        };
        assert(bytes@ =~= self@.encode());
        bytes
    }
}

impl RsnAkmSuite {
    /// The bytes of this suite on the wire.
    pub fn encode(&self) -> (bytes: Vec<u8>)
        ensures
            bytes@ == self@.encode(),
    {
        let bytes = match self {
            RsnAkmSuite::EAP => vec![0x00, 0x0F, 0xAC, 0x01],
            RsnAkmSuite::PSK => vec![0x00, 0x0F, 0xAC, 0x02],
            RsnAkmSuite::EAPFT => vec![0x00, 0x0F, 0xAC, 0x03],
            RsnAkmSuite::PSKFT => vec![0x00, 0x0F, 0xAC, 0x04],
            RsnAkmSuite::EAP256 => vec![0x00, 0x0F, 0xAC, 0x05],
            RsnAkmSuite::PSK256 => vec![0x00, 0x0F, 0xAC, 0x06],
            RsnAkmSuite::SAE => vec![0x00, 0x0F, 0xAC, 0x08],
            RsnAkmSuite::SUITEBEAP256 => vec![0x00, 0x0F, 0xAC, 0x0b],
            RsnAkmSuite::Unknown(data) => data.clone(),
        };
        assert(bytes@ =~= self@.encode());
        bytes
    }
}

impl WpaCipherSuite {
    /// The bytes of this suite on the wire.
    pub fn encode(&self) -> (bytes: Vec<u8>)
        ensures
            bytes@ == self@.encode(),
    {
        let bytes = match self {
            WpaCipherSuite::Wep40 => vec![0x00, 0x50, 0xF2, 0x01],
            WpaCipherSuite::Wep104 => vec![0x00, 0x50, 0xF2, 0x05],
            WpaCipherSuite::Tkip => vec![0x00, 0x50, 0xF2, 0x02],
            WpaCipherSuite::Ccmp => vec![0x00, 0x50, 0xF2, 0x04],
            WpaCipherSuite::Unknown(data) => data.clone(),
        };
        assert(bytes@ =~= self@.encode());
        bytes
    }
}

impl WpaAkmSuite {
    /// The bytes of this suite on the wire.
    pub fn encode(&self) -> (bytes: Vec<u8>)
        ensures
            bytes@ == self@.encode(),
    {
        let bytes = match self {
            WpaAkmSuite::Psk => vec![0x00, 0x50, 0xF2, 0x01],
            WpaAkmSuite::Eap => vec![0x00, 0x50, 0xF2, 0x02],
            WpaAkmSuite::Unknown(data) => data.clone(),
        };
        assert(bytes@ =~= self@.encode());
        bytes
    }
}

/// The RSN element: the ciphers and key management of an 802.11i network.
#[derive(Clone, Debug)]
pub struct RsnInformation {
    pub version: u16,
    pub group_cipher_suite: RsnCipherSuite,
    pub pairwise_cipher_suites: Vec<RsnCipherSuite>,
    pub akm_suites: Vec<RsnAkmSuite>,
    pub pre_auth: bool,
    pub no_pairwise: bool,
    pub ptksa_replay_counter: u8,
    pub gtksa_replay_counter: u8,
    pub mfp_required: bool,
    pub mfp_capable: bool,
    pub joint_multi_band_rsna: bool,
    pub peerkey_enabled: bool,
    pub extended_key_id: bool,
    pub ocvc: bool,
}

/// A [`RsnInformation`] as a mathematical value.
pub ghost struct RsnInformationView {
    pub version: u16,
    pub group_cipher_suite: RsnCipherSuiteView,
    pub pairwise_cipher_suites: Seq<RsnCipherSuiteView>,
    pub akm_suites: Seq<RsnAkmSuiteView>,
    pub pre_auth: bool,
    pub no_pairwise: bool,
    pub ptksa_replay_counter: u8,
    pub gtksa_replay_counter: u8,
    pub mfp_required: bool,
    pub mfp_capable: bool,
    pub joint_multi_band_rsna: bool,
    pub peerkey_enabled: bool,
    pub extended_key_id: bool,
    pub ocvc: bool,
}

impl View for RsnInformation {
    type V = RsnInformationView;

    open spec fn view(&self) -> RsnInformationView {
        RsnInformationView {
            version: self.version,
            group_cipher_suite: self.group_cipher_suite@,
            pairwise_cipher_suites: self.pairwise_cipher_suites.deep_view(),
            akm_suites: self.akm_suites.deep_view(),
            pre_auth: self.pre_auth,
            no_pairwise: self.no_pairwise,
            ptksa_replay_counter: self.ptksa_replay_counter,
            gtksa_replay_counter: self.gtksa_replay_counter,
            mfp_required: self.mfp_required,
            mfp_capable: self.mfp_capable,
            joint_multi_band_rsna: self.joint_multi_band_rsna,
            peerkey_enabled: self.peerkey_enabled,
            extended_key_id: self.extended_key_id,
            ocvc: self.ocvc,
        }
    }
}

impl DeepView for RsnInformation {
    type V = RsnInformationView;

    open spec fn deep_view(&self) -> RsnInformationView {
        self@
    }
}

/// The WPA element: the ciphers and key management of a WPA network, as the vendor
/// element of Microsoft's OUI with type 1 carries them.
#[derive(Clone, Debug)]
pub struct WpaInformation {
    pub version: u16,
    pub multicast_cipher_suite: WpaCipherSuite,
    pub unicast_cipher_suites: Vec<WpaCipherSuite>,
    pub akm_suites: Vec<WpaAkmSuite>,
}

/// A [`WpaInformation`] as a mathematical value.
pub ghost struct WpaInformationView {
    pub version: u16,
    pub multicast_cipher_suite: WpaCipherSuiteView,
    pub unicast_cipher_suites: Seq<WpaCipherSuiteView>,
    pub akm_suites: Seq<WpaAkmSuiteView>,
}

impl View for WpaInformation {
    type V = WpaInformationView;

    open spec fn view(&self) -> WpaInformationView {
        WpaInformationView {
            version: self.version,
            multicast_cipher_suite: self.multicast_cipher_suite@,
            unicast_cipher_suites: self.unicast_cipher_suites.deep_view(),
            akm_suites: self.akm_suites.deep_view(),
        }
    }
}

impl DeepView for WpaInformation {
    type V = WpaInformationView;

    open spec fn deep_view(&self) -> WpaInformationView {
        self@
    }
}

/// 1 for a flag that is set, 0 for one that is clear.
#[verifier::opaque]
pub open spec fn bit(b: bool) -> int {
    if b {
        1
    } else {
        0
    }
}

impl RsnInformationView {
    /// The capabilities word: one bit or two for each flag and counter, at the places that
    /// the standard gives them.
    pub open spec fn capabilities(self) -> u16 {
        (bit(self.pre_auth) + 2 * bit(self.no_pairwise) + 4 * (self.ptksa_replay_counter % 4) + 16
            * (self.gtksa_replay_counter % 4) + 64 * bit(self.mfp_required) + 128 * bit(
            self.mfp_capable,
        ) + 256 * bit(self.joint_multi_band_rsna) + 512 * bit(self.peerkey_enabled) + 8192 * bit(
            self.extended_key_id,
        ) + 16384 * bit(self.ocvc)) as u16
    }

    /// The body of the element: version, group cipher, the counted pairwise ciphers, the
    /// counted key management suites, and the capabilities word. Counts are cut to 16 bits.
    pub open spec fn encode(self) -> Seq<u8> {
        u16_le_bytes(self.version) + self.group_cipher_suite.encode() + u16_le_bytes(
            (self.pairwise_cipher_suites.len() % 0x1_0000) as u16,
        ) + concat_all(
            self.pairwise_cipher_suites.map_values(|c: RsnCipherSuiteView| c.encode()),
        ) + u16_le_bytes((self.akm_suites.len() % 0x1_0000) as u16) + concat_all(
            self.akm_suites.map_values(|c: RsnAkmSuiteView| c.encode()),
        ) + u16_le_bytes(self.capabilities())
    }

    /// An element as the decoder produces it: version 1, counters of two bits, suites that
    /// are well formed and few enough to count in 16 bits.
    pub open spec fn wf(self) -> bool {
        &&& self.version == 1
        &&& self.group_cipher_suite.wf()
        &&& self.pairwise_cipher_suites.len() <= 0xFFFF
        &&& self.akm_suites.len() <= 0xFFFF
        &&& forall|i: int|
            0 <= i < self.pairwise_cipher_suites.len() ==> (
            #[trigger] self.pairwise_cipher_suites[i]).wf()
        &&& forall|i: int| 0 <= i < self.akm_suites.len() ==> (#[trigger] self.akm_suites[i]).wf()
        &&& self.ptksa_replay_counter < 4
        &&& self.gtksa_replay_counter < 4
    }
}

impl WpaInformationView {
    /// The body of the element after the vendor prefix: version, multicast cipher, the
    /// counted unicast ciphers, and the counted key management suites.
    pub open spec fn encode(self) -> Seq<u8> {
        u16_le_bytes(self.version) + self.multicast_cipher_suite.encode() + u16_le_bytes(
            (self.unicast_cipher_suites.len() % 0x1_0000) as u16,
        ) + concat_all(self.unicast_cipher_suites.map_values(|c: WpaCipherSuiteView| c.encode()))
            + u16_le_bytes((self.akm_suites.len() % 0x1_0000) as u16) + concat_all(
            self.akm_suites.map_values(|c: WpaAkmSuiteView| c.encode()),
        )
    }

    /// An element as the decoder produces it.
    pub open spec fn wf(self) -> bool {
        &&& self.version == 1
        &&& self.multicast_cipher_suite.wf()
        &&& self.unicast_cipher_suites.len() <= 0xFFFF
        &&& self.akm_suites.len() <= 0xFFFF
        &&& forall|i: int|
            0 <= i < self.unicast_cipher_suites.len() ==> (
            #[trigger] self.unicast_cipher_suites[i]).wf()
        &&& forall|i: int| 0 <= i < self.akm_suites.len() ==> (#[trigger] self.akm_suites[i]).wf()
    }
}

fn flag(b: bool) -> (n: u16)
    ensures
        n == bit(b),
        n <= 1,
{
    reveal(bit);
    if b {
        1
    } else {
        0
    }
}

/// Appends the selectors of `suites`.
fn push_rsn_ciphers(out: &mut Vec<u8>, suites: &Vec<RsnCipherSuite>)
    ensures
        final(out)@ == old(out)@ + concat_all(
            suites.deep_view().map_values(|c: RsnCipherSuiteView| c.encode()),
        ),
{
    let ghost head = out@;
    let ghost parts = suites.deep_view().map_values(|c: RsnCipherSuiteView| c.encode());
    let mut i: usize = 0;
    assert(out@ =~= head + concat_all(parts.take(0)));
    while i < suites.len()
        invariant
            i <= suites.len(),
            parts == suites.deep_view().map_values(|c: RsnCipherSuiteView| c.encode()),
            out@ == head + concat_all(parts.take(i as int)),
        decreases suites.len() - i,
    {
        let suite = suites[i].encode();
        proof {
            assert(parts.take(i + 1) =~= parts.take(i as int).push(suite@));
            crate::wire::lemma_concat_all_push(parts.take(i as int), suite@);
        }
        push_bytes(out, suite.as_slice());
        i += 1;
    }
    assert(parts.take(i as int) =~= parts);
}

/// Appends the selectors of `suites`.
fn push_rsn_akms(out: &mut Vec<u8>, suites: &Vec<RsnAkmSuite>)
    ensures
        final(out)@ == old(out)@ + concat_all(
            suites.deep_view().map_values(|c: RsnAkmSuiteView| c.encode()),
        ),
{
    let ghost head = out@;
    let ghost parts = suites.deep_view().map_values(|c: RsnAkmSuiteView| c.encode());
    let mut i: usize = 0;
    assert(out@ =~= head + concat_all(parts.take(0)));
    while i < suites.len()
        invariant
            i <= suites.len(),
            parts == suites.deep_view().map_values(|c: RsnAkmSuiteView| c.encode()),
            out@ == head + concat_all(parts.take(i as int)),
        decreases suites.len() - i,
    {
        let suite = suites[i].encode();
        proof {
            assert(parts.take(i + 1) =~= parts.take(i as int).push(suite@));
            crate::wire::lemma_concat_all_push(parts.take(i as int), suite@);
        }
        push_bytes(out, suite.as_slice());
        i += 1;
    }
    assert(parts.take(i as int) =~= parts);
}

/// Appends the selectors of `suites`.
fn push_wpa_ciphers(out: &mut Vec<u8>, suites: &Vec<WpaCipherSuite>)
    ensures
        final(out)@ == old(out)@ + concat_all(
            suites.deep_view().map_values(|c: WpaCipherSuiteView| c.encode()),
        ),
{
    let ghost head = out@;
    let ghost parts = suites.deep_view().map_values(|c: WpaCipherSuiteView| c.encode());
    let mut i: usize = 0;
    assert(out@ =~= head + concat_all(parts.take(0)));
    while i < suites.len()
        invariant
            i <= suites.len(),
            parts == suites.deep_view().map_values(|c: WpaCipherSuiteView| c.encode()),
            out@ == head + concat_all(parts.take(i as int)),
        decreases suites.len() - i,
    {
        let suite = suites[i].encode();
        proof {
            assert(parts.take(i + 1) =~= parts.take(i as int).push(suite@));
            crate::wire::lemma_concat_all_push(parts.take(i as int), suite@);
        }
        push_bytes(out, suite.as_slice());
        i += 1;
    }
    assert(parts.take(i as int) =~= parts);
}

/// Appends the selectors of `suites`.
fn push_wpa_akms(out: &mut Vec<u8>, suites: &Vec<WpaAkmSuite>)
    ensures
        final(out)@ == old(out)@ + concat_all(
            suites.deep_view().map_values(|c: WpaAkmSuiteView| c.encode()),
        ),
{
    let ghost head = out@;
    let ghost parts = suites.deep_view().map_values(|c: WpaAkmSuiteView| c.encode());
    let mut i: usize = 0;
    assert(out@ =~= head + concat_all(parts.take(0)));
    while i < suites.len()
        invariant
            i <= suites.len(),
            parts == suites.deep_view().map_values(|c: WpaAkmSuiteView| c.encode()),
            out@ == head + concat_all(parts.take(i as int)),
        decreases suites.len() - i,
    {
        let suite = suites[i].encode();
        proof {
            assert(parts.take(i + 1) =~= parts.take(i as int).push(suite@));
            crate::wire::lemma_concat_all_push(parts.take(i as int), suite@);
        }
        push_bytes(out, suite.as_slice());
        i += 1;
    }
    assert(parts.take(i as int) =~= parts);
}

impl RsnInformation {
    /// The capabilities word of this element.
    pub fn capabilities(&self) -> (word: u16)
        ensures
            word == self@.capabilities(),
    {
        flag(self.pre_auth) + 2 * flag(self.no_pairwise) + 4 * ((self.ptksa_replay_counter
            % 4) as u16) + 16 * ((self.gtksa_replay_counter % 4) as u16) + 64 * flag(
            self.mfp_required,
        ) + 128 * flag(self.mfp_capable) + 256 * flag(self.joint_multi_band_rsna) + 512 * flag(
            self.peerkey_enabled,
        ) + 8192 * flag(self.extended_key_id) + 16384 * flag(self.ocvc)
    }

    /// The body of this element on the wire.
    pub fn encode(&self) -> (bytes: Vec<u8>)
        ensures
            bytes@ == self@.encode(),
    {
        let mut bytes: Vec<u8> = Vec::new();
        push_le_u16(&mut bytes, self.version);
        push_bytes(&mut bytes, self.group_cipher_suite.encode().as_slice());
        push_le_u16(&mut bytes, (self.pairwise_cipher_suites.len() % 0x1_0000) as u16);
        push_rsn_ciphers(&mut bytes, &self.pairwise_cipher_suites);
        push_le_u16(&mut bytes, (self.akm_suites.len() % 0x1_0000) as u16);
        push_rsn_akms(&mut bytes, &self.akm_suites);
        push_le_u16(&mut bytes, self.capabilities());
        assert(bytes@ =~= self@.encode());
        bytes
    }
}

impl WpaInformation {
    /// The body of this element on the wire, after the vendor prefix.
    pub fn encode(&self) -> (bytes: Vec<u8>)
        ensures
            bytes@ == self@.encode(),
    {
        let mut bytes: Vec<u8> = Vec::new();
        push_le_u16(&mut bytes, self.version);
        push_bytes(&mut bytes, self.multicast_cipher_suite.encode().as_slice());
        push_le_u16(&mut bytes, (self.unicast_cipher_suites.len() % 0x1_0000) as u16);
        push_wpa_ciphers(&mut bytes, &self.unicast_cipher_suites);
        push_le_u16(&mut bytes, (self.akm_suites.len() % 0x1_0000) as u16);
        push_wpa_akms(&mut bytes, &self.akm_suites);
        assert(bytes@ =~= self@.encode());
        bytes
    }
}

/// Each of the four kinds of suite comes back from its own selector, and every selector of
/// four bytes comes back from the suite it names.
pub proof fn lemma_suite_round_trip(
    rc: RsnCipherSuiteView,
    ra: RsnAkmSuiteView,
    wc: WpaCipherSuiteView,
    wa: WpaAkmSuiteView,
    b: Seq<u8>,
)
    ensures
        rc.wf() ==> RsnCipherSuiteView::of(rc.encode()) == rc && rc.encode().len() == 4,
        ra.wf() ==> RsnAkmSuiteView::of(ra.encode()) == ra && ra.encode().len() == 4,
        wc.wf() ==> WpaCipherSuiteView::of(wc.encode()) == wc && wc.encode().len() == 4,
        wa.wf() ==> WpaAkmSuiteView::of(wa.encode()) == wa && wa.encode().len() == 4,
        b.len() == 4 ==> RsnCipherSuiteView::of(b).wf() && RsnCipherSuiteView::of(b).encode() == b,
        b.len() == 4 ==> RsnAkmSuiteView::of(b).wf() && RsnAkmSuiteView::of(b).encode() == b,
        b.len() == 4 ==> WpaCipherSuiteView::of(b).wf() && WpaCipherSuiteView::of(b).encode() == b,
        b.len() == 4 ==> WpaAkmSuiteView::of(b).wf() && WpaAkmSuiteView::of(b).encode() == b,
{
    if b.len() == 4 {
        assert(RsnCipherSuiteView::of(b).encode() =~= b);
        assert(RsnAkmSuiteView::of(b).encode() =~= b);
        assert(WpaCipherSuiteView::of(b).encode() =~= b);
        assert(WpaAkmSuiteView::of(b).encode() =~= b);
    }
}

} // verus!
