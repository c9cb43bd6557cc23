use vstd::prelude::*;

verus! {

/// A named browser fingerprint preset, written on the wire under its catalog name.
#[derive(Debug, Clone, Copy, PartialEq, Eq, Structural)]
pub enum ClientIdentifier {
    Chrome103,
    Chrome104,
    Chrome105,
    Chrome106,
    Chrome107,
    Chrome108,
    Chrome109,
    Chrome110,
    Chrome111,
    Chrome112,
    Chrome116Psk,
    Chrome116PskPq,
    Chrome117,
    Chrome120,
    Safari1561,
    Safari160,
    SafariIOS155,
    SafariIOS156,
    SafariIOS160,
    SafariIPadOS156,
    Firefox102,
    Firefox104,
    Firefox105,
    Firefox106,
    Firefox108,
    Firefox110,
    Firefox117,
    Opera89,
    Opera90,
    Opera91,
    ZalandoIOSMobile,
    NikeIOSMobile,
    Cloudscraper,
    MmsIOS1,
    MmsIOS2,
    MmsIOS3,
    MeshIOS1,
    ConfirmedIOS,
}

impl ClientIdentifier {
    /// The exact name this value takes on the wire.
    pub open spec fn wire_spec(self) -> Seq<char> {
        match self {
            ClientIdentifier::Chrome103 => "chrome_103"@,
            ClientIdentifier::Chrome104 => "chrome_104"@,
            ClientIdentifier::Chrome105 => "chrome_105"@,
            ClientIdentifier::Chrome106 => "chrome_106"@,
            ClientIdentifier::Chrome107 => "chrome_107"@,
            ClientIdentifier::Chrome108 => "chrome_108"@,
            ClientIdentifier::Chrome109 => "chrome_109"@,
            ClientIdentifier::Chrome110 => "chrome_110"@,
            ClientIdentifier::Chrome111 => "chrome_111"@,
            ClientIdentifier::Chrome112 => "chrome_112"@,
            ClientIdentifier::Chrome116Psk => "chrome_116_PSK"@,
            ClientIdentifier::Chrome116PskPq => "chrome_116_PSK_PQ"@,
            ClientIdentifier::Chrome117 => "chrome_117"@,
            ClientIdentifier::Chrome120 => "chrome_120"@,
            ClientIdentifier::Safari1561 => "safari_15_6_1"@,
            ClientIdentifier::Safari160 => "safari_16_0"@,
            ClientIdentifier::SafariIOS155 => "safari_ios_15_5"@,
            ClientIdentifier::SafariIOS156 => "safari_ios_15_6"@,
            ClientIdentifier::SafariIOS160 => "safari_ios_16_0"@,
            ClientIdentifier::SafariIPadOS156 => "safari_ios_15_6"@,
            ClientIdentifier::Firefox102 => "firefox_102"@,
            ClientIdentifier::Firefox104 => "firefox_104"@,
            ClientIdentifier::Firefox105 => "firefox_105"@,
            ClientIdentifier::Firefox106 => "firefox_106"@,
            ClientIdentifier::Firefox108 => "firefox_108"@,
            ClientIdentifier::Firefox110 => "firefox_110"@,
            ClientIdentifier::Firefox117 => "firefox_117"@,
            ClientIdentifier::Opera89 => "opera_89"@,
            ClientIdentifier::Opera90 => "opera_90"@,
            ClientIdentifier::Opera91 => "opera_91"@,
            ClientIdentifier::ZalandoIOSMobile => "zalando_ios_mobile"@,
            ClientIdentifier::NikeIOSMobile => "nike_ios_mobile"@,
            ClientIdentifier::Cloudscraper => "Cloudscraper"@,
            ClientIdentifier::MmsIOS1 => "mms_ios"@,
            ClientIdentifier::MmsIOS2 => "mms_ios_2"@,
            ClientIdentifier::MmsIOS3 => "mms_ios_3"@,
            ClientIdentifier::MeshIOS1 => "mesh_ios"@,
            ClientIdentifier::ConfirmedIOS => "confirmed_ios"@,
        }
    }

    pub fn wire_name(&self) -> (r: &'static str)
        ensures
            r@ == self.wire_spec(),
    {
        match self {
            ClientIdentifier::Chrome103 => "chrome_103",
            ClientIdentifier::Chrome104 => "chrome_104",
            ClientIdentifier::Chrome105 => "chrome_105",
            ClientIdentifier::Chrome106 => "chrome_106",
            ClientIdentifier::Chrome107 => "chrome_107",
            ClientIdentifier::Chrome108 => "chrome_108",
            ClientIdentifier::Chrome109 => "chrome_109",
            ClientIdentifier::Chrome110 => "chrome_110",
            ClientIdentifier::Chrome111 => "chrome_111",
            ClientIdentifier::Chrome112 => "chrome_112",
            ClientIdentifier::Chrome116Psk => "chrome_116_PSK",
            ClientIdentifier::Chrome116PskPq => "chrome_116_PSK_PQ",
            ClientIdentifier::Chrome117 => "chrome_117",
            ClientIdentifier::Chrome120 => "chrome_120",
            ClientIdentifier::Safari1561 => "safari_15_6_1",
            ClientIdentifier::Safari160 => "safari_16_0",
            ClientIdentifier::SafariIOS155 => "safari_ios_15_5",
            ClientIdentifier::SafariIOS156 => "safari_ios_15_6",
            ClientIdentifier::SafariIOS160 => "safari_ios_16_0",
            ClientIdentifier::SafariIPadOS156 => "safari_ios_15_6",
            ClientIdentifier::Firefox102 => "firefox_102",
            ClientIdentifier::Firefox104 => "firefox_104",
            ClientIdentifier::Firefox105 => "firefox_105",
            ClientIdentifier::Firefox106 => "firefox_106",
            ClientIdentifier::Firefox108 => "firefox_108",
            ClientIdentifier::Firefox110 => "firefox_110",
            ClientIdentifier::Firefox117 => "firefox_117",
            ClientIdentifier::Opera89 => "opera_89",
            ClientIdentifier::Opera90 => "opera_90",
            ClientIdentifier::Opera91 => "opera_91",
            ClientIdentifier::ZalandoIOSMobile => "zalando_ios_mobile",
            ClientIdentifier::NikeIOSMobile => "nike_ios_mobile",
            ClientIdentifier::Cloudscraper => "Cloudscraper",
            ClientIdentifier::MmsIOS1 => "mms_ios",
            ClientIdentifier::MmsIOS2 => "mms_ios_2",
            ClientIdentifier::MmsIOS3 => "mms_ios_3",
            ClientIdentifier::MeshIOS1 => "mesh_ios",
            ClientIdentifier::ConfirmedIOS => "confirmed_ios",
        }
    }
}

/// An HTTP/2 settings identifier.
#[derive(Debug, Clone, Copy, PartialEq, Eq, Hash, Structural)]
pub enum H2Setting {
    HeaderTableSize,
    EnablePush,
    MaxConcurrentStreams,
    InitialWindowSize,
    MaxFrameSize,
    MaxHeaderListSize,
}

impl H2Setting {
    /// The exact name this value takes on the wire.
    pub open spec fn wire_spec(self) -> Seq<char> {
        match self {
            H2Setting::HeaderTableSize => "HEADER_TABLE_SIZE"@,
            H2Setting::EnablePush => "ENABLE_PUSH"@,
            H2Setting::MaxConcurrentStreams => "MAX_CONCURRENT_STREAMS"@,
            H2Setting::InitialWindowSize => "INITIAL_WINDOW_SIZE"@,
            H2Setting::MaxFrameSize => "MAX_FRAME_SIZE"@,
            H2Setting::MaxHeaderListSize => "MAX_HEADER_LIST_SIZE"@,
        }
    }

    pub fn wire_name(&self) -> (r: &'static str)
        ensures
            r@ == self.wire_spec(),
    {
        match self {
            H2Setting::HeaderTableSize => "HEADER_TABLE_SIZE",
            H2Setting::EnablePush => "ENABLE_PUSH",
            H2Setting::MaxConcurrentStreams => "MAX_CONCURRENT_STREAMS",
            H2Setting::InitialWindowSize => "INITIAL_WINDOW_SIZE",
            H2Setting::MaxFrameSize => "MAX_FRAME_SIZE",
            H2Setting::MaxHeaderListSize => "MAX_HEADER_LIST_SIZE",
        }
    }
}

/// A TLS protocol version tag.
#[derive(Debug, Clone, Copy, PartialEq, Eq, Structural)]
pub enum SupportedVersion {
    Grease,
    V1_3,
    V1_2,
    V1_1,
    V1_0,
}

impl SupportedVersion {
    /// The exact name this value takes on the wire.
    pub open spec fn wire_spec(self) -> Seq<char> {
        match self {
            SupportedVersion::Grease => "GREASE"@,
            SupportedVersion::V1_3 => "1.3"@,
            SupportedVersion::V1_2 => "1.2"@,
            SupportedVersion::V1_1 => "1.1"@,
            SupportedVersion::V1_0 => "1.0"@,
        }
    }

    pub fn wire_name(&self) -> (r: &'static str)
        ensures
            r@ == self.wire_spec(),
    {
        match self {
            SupportedVersion::Grease => "GREASE",
            SupportedVersion::V1_3 => "1.3",
            SupportedVersion::V1_2 => "1.2",
            SupportedVersion::V1_1 => "1.1",
            SupportedVersion::V1_0 => "1.0",
        }
    }
}

/// A TLS signature scheme name.
#[derive(Debug, Clone, Copy, PartialEq, Eq, Structural)]
pub enum SignatureAlgorithm {
    PKCS1WithSHA256,
    PKCS1WithSHA384,
    PKCS1WithSHA512,
    PSSWithSHA256,
    PSSWithSHA384,
    PSSWithSHA512,
    ECDSAWithP256AndSHA256,
    ECDSAWithP384AndSHA384,
    ECDSAWithP521AndSHA512,
    PKCS1WithSHA1,
    ECDSAWithSHA1,
    Ed25519,
}

impl SignatureAlgorithm {
    /// The exact name this value takes on the wire.
    pub open spec fn wire_spec(self) -> Seq<char> {
        match self {
            SignatureAlgorithm::PKCS1WithSHA256 => "PKCS1WithSHA256"@,
            SignatureAlgorithm::PKCS1WithSHA384 => "PKCS1WithSHA384"@,
            SignatureAlgorithm::PKCS1WithSHA512 => "PKCS1WithSHA512"@,
            SignatureAlgorithm::PSSWithSHA256 => "PSSWithSHA256"@,
            SignatureAlgorithm::PSSWithSHA384 => "PSSWithSHA384"@,
            SignatureAlgorithm::PSSWithSHA512 => "PSSWithSHA512"@,
            SignatureAlgorithm::ECDSAWithP256AndSHA256 => "ECDSAWithP256AndSHA256"@,
            SignatureAlgorithm::ECDSAWithP384AndSHA384 => "ECDSAWithP384AndSHA384"@,
            SignatureAlgorithm::ECDSAWithP521AndSHA512 => "ECDSAWithP521AndSHA512"@,
            SignatureAlgorithm::PKCS1WithSHA1 => "PKCS1WithSHA1"@,
            SignatureAlgorithm::ECDSAWithSHA1 => "ECDSAWithSHA1"@,
            SignatureAlgorithm::Ed25519 => "Ed25519"@,
        }
    }

    pub fn wire_name(&self) -> (r: &'static str)
        ensures
            r@ == self.wire_spec(),
    {
        match self {
            SignatureAlgorithm::PKCS1WithSHA256 => "PKCS1WithSHA256",
            SignatureAlgorithm::PKCS1WithSHA384 => "PKCS1WithSHA384",
            SignatureAlgorithm::PKCS1WithSHA512 => "PKCS1WithSHA512",
            SignatureAlgorithm::PSSWithSHA256 => "PSSWithSHA256",
            SignatureAlgorithm::PSSWithSHA384 => "PSSWithSHA384",
            SignatureAlgorithm::PSSWithSHA512 => "PSSWithSHA512",
            SignatureAlgorithm::ECDSAWithP256AndSHA256 => "ECDSAWithP256AndSHA256",
            SignatureAlgorithm::ECDSAWithP384AndSHA384 => "ECDSAWithP384AndSHA384",
            SignatureAlgorithm::ECDSAWithP521AndSHA512 => "ECDSAWithP521AndSHA512",
            SignatureAlgorithm::PKCS1WithSHA1 => "PKCS1WithSHA1",
            SignatureAlgorithm::ECDSAWithSHA1 => "ECDSAWithSHA1",
            SignatureAlgorithm::Ed25519 => "Ed25519",
        }
    }
}

/// A certificate compression algorithm name.
#[derive(Debug, Clone, Copy, PartialEq, Eq, Structural)]
pub enum CertCompressionAlgorithm {
    Zlib,
    Brotli,
    Zstd,
}

impl CertCompressionAlgorithm {
    /// The exact name this value takes on the wire.
    pub open spec fn wire_spec(self) -> Seq<char> {
        match self {
            CertCompressionAlgorithm::Zlib => "zlib"@,
            CertCompressionAlgorithm::Brotli => "brotli"@,
            CertCompressionAlgorithm::Zstd => "zstd"@,
        }
    }

    pub fn wire_name(&self) -> (r: &'static str)
        ensures
            r@ == self.wire_spec(),
    {
        match self {
            CertCompressionAlgorithm::Zlib => "zlib",
            CertCompressionAlgorithm::Brotli => "brotli",
            CertCompressionAlgorithm::Zstd => "zstd",
        }
    }
}

/// A delegated-credential signature scheme name.
#[derive(Debug, Clone, Copy, PartialEq, Eq, Structural)]
pub enum DelegatedCredential {
    PKCS1WithSHA256,
    PKCS1WithSHA384,
    PKCS1WithSHA512,
    PSSWithSHA256,
    PSSWithSHA384,
    PSSWithSHA512,
    ECDSAWithP256AndSHA256,
    ECDSAWithP384AndSHA384,
    ECDSAWithP521AndSHA512,
    PKCS1WithSHA1,
    ECDSAWithSHA1,
    Ed25519,
    SHA224RSA,
    SHA224ECDSA,
}

impl DelegatedCredential {
    /// The exact name this value takes on the wire.
    pub open spec fn wire_spec(self) -> Seq<char> {
        match self {
            DelegatedCredential::PKCS1WithSHA256 => "PKCS1WithSHA256"@,
            DelegatedCredential::PKCS1WithSHA384 => "PKCS1WithSHA384"@,
            DelegatedCredential::PKCS1WithSHA512 => "PKCS1WithSHA512"@,
            DelegatedCredential::PSSWithSHA256 => "PSSWithSHA256"@,
            DelegatedCredential::PSSWithSHA384 => "PSSWithSHA384"@,
            DelegatedCredential::PSSWithSHA512 => "PSSWithSHA512"@,
            DelegatedCredential::ECDSAWithP256AndSHA256 => "ECDSAWithP256AndSHA256"@,
            DelegatedCredential::ECDSAWithP384AndSHA384 => "ECDSAWithP384AndSHA384"@,
            DelegatedCredential::ECDSAWithP521AndSHA512 => "ECDSAWithP521AndSHA512"@,
            DelegatedCredential::PKCS1WithSHA1 => "PKCS1WithSHA1"@,
            DelegatedCredential::ECDSAWithSHA1 => "ECDSAWithSHA1"@,
            DelegatedCredential::Ed25519 => "Ed25519"@,
            DelegatedCredential::SHA224RSA => "SHA224_RSA"@,
            DelegatedCredential::SHA224ECDSA => "SHA224_ECDSA"@,
        }
    }

    pub fn wire_name(&self) -> (r: &'static str)
        ensures
            r@ == self.wire_spec(),
    {
        match self {
            DelegatedCredential::PKCS1WithSHA256 => "PKCS1WithSHA256",
            DelegatedCredential::PKCS1WithSHA384 => "PKCS1WithSHA384",
            DelegatedCredential::PKCS1WithSHA512 => "PKCS1WithSHA512",
            DelegatedCredential::PSSWithSHA256 => "PSSWithSHA256",
            DelegatedCredential::PSSWithSHA384 => "PSSWithSHA384",
            DelegatedCredential::PSSWithSHA512 => "PSSWithSHA512",
            DelegatedCredential::ECDSAWithP256AndSHA256 => "ECDSAWithP256AndSHA256",
            DelegatedCredential::ECDSAWithP384AndSHA384 => "ECDSAWithP384AndSHA384",
            DelegatedCredential::ECDSAWithP521AndSHA512 => "ECDSAWithP521AndSHA512",
            DelegatedCredential::PKCS1WithSHA1 => "PKCS1WithSHA1",
            DelegatedCredential::ECDSAWithSHA1 => "ECDSAWithSHA1",
            DelegatedCredential::Ed25519 => "Ed25519",
            DelegatedCredential::SHA224RSA => "SHA224_RSA",
            DelegatedCredential::SHA224ECDSA => "SHA224_ECDSA",
        }
    }
}

/// A key-share curve name.
#[derive(Debug, Clone, Copy, PartialEq, Eq, Structural)]
pub enum KeyShareCurve {
    Grease,
    P256,
    P384,
    P521,
    X25519,
}

impl KeyShareCurve {
    /// The exact name this value takes on the wire.
    pub open spec fn wire_spec(self) -> Seq<char> {
        match self {
            KeyShareCurve::Grease => "GREASE"@,
            KeyShareCurve::P256 => "P256"@,
            KeyShareCurve::P384 => "P384"@,
            KeyShareCurve::P521 => "P521"@,
            KeyShareCurve::X25519 => "X25519"@,
        }
    }

    pub fn wire_name(&self) -> (r: &'static str)
        ensures
            r@ == self.wire_spec(),
    {
        match self {
            KeyShareCurve::Grease => "GREASE",
            KeyShareCurve::P256 => "P256",
            KeyShareCurve::P384 => "P384",
            KeyShareCurve::P521 => "P521",
            KeyShareCurve::X25519 => "X25519",
        }
    }
}

/// A key-derivation function identifier for ECH candidates.
#[derive(Debug, Clone, Copy, PartialEq, Eq, Structural)]
#[allow(non_camel_case_types)]
pub enum KdfId {
    HKDF_SHA256,
    HKDF_SHA384,
    HKDF_SHA512,
}

impl KdfId {
    /// The exact name this value takes on the wire.
    pub open spec fn wire_spec(self) -> Seq<char> {
        match self {
            KdfId::HKDF_SHA256 => "HKDF_SHA256"@,
            KdfId::HKDF_SHA384 => "HKDF_SHA384"@,
            KdfId::HKDF_SHA512 => "HKDF_SHA512"@,
        }
    }

    pub fn wire_name(&self) -> (r: &'static str)
        ensures
            r@ == self.wire_spec(),
    {
        match self {
            KdfId::HKDF_SHA256 => "HKDF_SHA256",
            KdfId::HKDF_SHA384 => "HKDF_SHA384",
            KdfId::HKDF_SHA512 => "HKDF_SHA512",
        }
    }
}

/// An AEAD algorithm identifier for ECH candidates.
#[derive(Debug, Clone, Copy, PartialEq, Eq, Structural)]
#[allow(non_camel_case_types)]
pub enum AeadId {
    AEAD_AES_128_GCM,
    AEAD_AES_256_GCM,
    AEAD_CHACHA20_POLY1305,
}

impl AeadId {
    /// The exact name this value takes on the wire.
    pub open spec fn wire_spec(self) -> Seq<char> {
        match self {
            AeadId::AEAD_AES_128_GCM => "AEAD_AES_128_GCM"@,
            AeadId::AEAD_AES_256_GCM => "AEAD_AES_256_GCM"@,
            AeadId::AEAD_CHACHA20_POLY1305 => "AEAD_CHACHA20_POLY1305"@,
        }
    }

    pub fn wire_name(&self) -> (r: &'static str)
        ensures
            r@ == self.wire_spec(),
    {
        match self {
            AeadId::AEAD_AES_128_GCM => "AEAD_AES_128_GCM",
            AeadId::AEAD_AES_256_GCM => "AEAD_AES_256_GCM",
            AeadId::AEAD_CHACHA20_POLY1305 => "AEAD_CHACHA20_POLY1305",
        }
    }
}

impl ClientIdentifier {
    /// The catalog value a wire name stands for, the first owner of a shared name.
    pub open spec fn of_wire(s: Seq<char>) -> Option<ClientIdentifier> {
        if s == "chrome_103"@ {
            Some(ClientIdentifier::Chrome103)
        } else if s == "chrome_104"@ {
            Some(ClientIdentifier::Chrome104)
        } else if s == "chrome_105"@ {
            Some(ClientIdentifier::Chrome105)
        } else if s == "chrome_106"@ {
            Some(ClientIdentifier::Chrome106)
        } else if s == "chrome_107"@ {
            Some(ClientIdentifier::Chrome107)
        } else if s == "chrome_108"@ {
            Some(ClientIdentifier::Chrome108)
        } else if s == "chrome_109"@ {
            Some(ClientIdentifier::Chrome109)
        } else if s == "chrome_110"@ {
            Some(ClientIdentifier::Chrome110)
        } else if s == "chrome_111"@ {
            Some(ClientIdentifier::Chrome111)
        } else if s == "chrome_112"@ {
            Some(ClientIdentifier::Chrome112)
        } else if s == "chrome_116_PSK"@ {
            Some(ClientIdentifier::Chrome116Psk)
        } else if s == "chrome_116_PSK_PQ"@ {
            Some(ClientIdentifier::Chrome116PskPq)
        } else if s == "chrome_117"@ {
            Some(ClientIdentifier::Chrome117)
        } else if s == "chrome_120"@ {
            Some(ClientIdentifier::Chrome120)
        } else if s == "safari_15_6_1"@ {
            Some(ClientIdentifier::Safari1561)
        } else if s == "safari_16_0"@ {
            Some(ClientIdentifier::Safari160)
        } else if s == "safari_ios_15_5"@ {
            Some(ClientIdentifier::SafariIOS155)
        } else if s == "safari_ios_15_6"@ {
            Some(ClientIdentifier::SafariIOS156)
        } else if s == "safari_ios_16_0"@ {
            Some(ClientIdentifier::SafariIOS160)
        } else if s == "firefox_102"@ {
            Some(ClientIdentifier::Firefox102)
        } else if s == "firefox_104"@ {
            Some(ClientIdentifier::Firefox104)
        } else if s == "firefox_105"@ {
            Some(ClientIdentifier::Firefox105)
        } else if s == "firefox_106"@ {
            Some(ClientIdentifier::Firefox106)
        } else if s == "firefox_108"@ {
            Some(ClientIdentifier::Firefox108)
        } else if s == "firefox_110"@ {
            Some(ClientIdentifier::Firefox110)
        } else if s == "firefox_117"@ {
            Some(ClientIdentifier::Firefox117)
        } else if s == "opera_89"@ {
            Some(ClientIdentifier::Opera89)
        } else if s == "opera_90"@ {
            Some(ClientIdentifier::Opera90)
        } else if s == "opera_91"@ {
            Some(ClientIdentifier::Opera91)
        } else if s == "zalando_ios_mobile"@ {
            Some(ClientIdentifier::ZalandoIOSMobile)
        } else if s == "nike_ios_mobile"@ {
            Some(ClientIdentifier::NikeIOSMobile)
        } else if s == "Cloudscraper"@ {
            Some(ClientIdentifier::Cloudscraper)
        } else if s == "mms_ios"@ {
            Some(ClientIdentifier::MmsIOS1)
        } else if s == "mms_ios_2"@ {
            Some(ClientIdentifier::MmsIOS2)
        } else if s == "mms_ios_3"@ {
            Some(ClientIdentifier::MmsIOS3)
        } else if s == "mesh_ios"@ {
            Some(ClientIdentifier::MeshIOS1)
        } else if s == "confirmed_ios"@ {
            Some(ClientIdentifier::ConfirmedIOS)
        } else {
            None
        }
    }
}

/// Reading a written name gives the value back, but for the one preset that shares its wire name.
pub proof fn lemma_clientidentifier_wire_inverse(e: ClientIdentifier)
    requires
        e != ClientIdentifier::SafariIPadOS156,
    ensures
        ClientIdentifier::of_wire(e.wire_spec()) == Some(e),
{
    reveal_strlit("Cloudscraper");
    reveal_strlit("chrome_103");
    reveal_strlit("chrome_104");
    reveal_strlit("chrome_105");
    reveal_strlit("chrome_106");
    reveal_strlit("chrome_107");
    reveal_strlit("chrome_108");
    reveal_strlit("chrome_109");
    reveal_strlit("chrome_110");
    reveal_strlit("chrome_111");
    reveal_strlit("chrome_112");
    reveal_strlit("chrome_116_PSK");
    reveal_strlit("chrome_116_PSK_PQ");
    reveal_strlit("chrome_117");
    reveal_strlit("chrome_120");
    reveal_strlit("confirmed_ios");
    reveal_strlit("firefox_102");
    reveal_strlit("firefox_104");
    reveal_strlit("firefox_105");
    reveal_strlit("firefox_106");
    reveal_strlit("firefox_108");
    reveal_strlit("firefox_110");
    reveal_strlit("firefox_117");
    reveal_strlit("mesh_ios");
    reveal_strlit("mms_ios");
    reveal_strlit("mms_ios_2");
    reveal_strlit("mms_ios_3");
    reveal_strlit("nike_ios_mobile");
    reveal_strlit("opera_89");
    reveal_strlit("opera_90");
    reveal_strlit("opera_91");
    reveal_strlit("safari_15_6_1");
    reveal_strlit("safari_16_0");
    reveal_strlit("safari_ios_15_5");
    reveal_strlit("safari_ios_15_6");
    reveal_strlit("safari_ios_16_0");
    reveal_strlit("zalando_ios_mobile");
    assert(("Cloudscraper"@).len() == 12);
    assert(("chrome_103"@).len() == 10);
    assert(("chrome_104"@).len() == 10);
    assert(("chrome_105"@).len() == 10);
    assert(("chrome_106"@).len() == 10);
    assert(("chrome_107"@).len() == 10);
    assert(("chrome_108"@).len() == 10);
    assert(("chrome_109"@).len() == 10);
    assert(("chrome_110"@).len() == 10);
    assert(("chrome_111"@).len() == 10);
    assert(("chrome_112"@).len() == 10);
    assert(("chrome_116_PSK"@).len() == 14);
    assert(("chrome_116_PSK_PQ"@).len() == 17);
    assert(("chrome_117"@).len() == 10);
    assert(("chrome_120"@).len() == 10);
    assert(("confirmed_ios"@).len() == 13);
    assert(("firefox_102"@).len() == 11);
    assert(("firefox_104"@).len() == 11);
    assert(("firefox_105"@).len() == 11);
    assert(("firefox_106"@).len() == 11);
    assert(("firefox_108"@).len() == 11);
    assert(("firefox_110"@).len() == 11);
    assert(("firefox_117"@).len() == 11);
    assert(("mesh_ios"@).len() == 8);
    assert(("mms_ios"@).len() == 7);
    assert(("mms_ios_2"@).len() == 9);
    assert(("mms_ios_3"@).len() == 9);
    assert(("nike_ios_mobile"@).len() == 15);
    assert(("opera_89"@).len() == 8);
    assert(("opera_90"@).len() == 8);
    assert(("opera_91"@).len() == 8);
    assert(("safari_15_6_1"@).len() == 13);
    assert(("safari_16_0"@).len() == 11);
    assert(("safari_ios_15_5"@).len() == 15);
    assert(("safari_ios_15_6"@).len() == 15);
    assert(("safari_ios_16_0"@).len() == 15);
    assert(("zalando_ios_mobile"@).len() == 18);
    assert(("chrome_103"@)[9] != ("chrome_104"@)[9]);
    assert("chrome_103"@ != "chrome_104"@);
    assert(("chrome_103"@)[9] != ("chrome_105"@)[9]);
    assert("chrome_103"@ != "chrome_105"@);
    assert(("chrome_103"@)[9] != ("chrome_106"@)[9]);
    assert("chrome_103"@ != "chrome_106"@);
    assert(("chrome_103"@)[9] != ("chrome_107"@)[9]);
    assert("chrome_103"@ != "chrome_107"@);
    assert(("chrome_103"@)[9] != ("chrome_108"@)[9]);
    assert("chrome_103"@ != "chrome_108"@);
    assert(("chrome_103"@)[9] != ("chrome_109"@)[9]);
    assert("chrome_103"@ != "chrome_109"@);
    assert(("chrome_103"@)[8] != ("chrome_110"@)[8]);
    assert("chrome_103"@ != "chrome_110"@);
    assert(("chrome_103"@)[8] != ("chrome_111"@)[8]);
    assert("chrome_103"@ != "chrome_111"@);
    assert(("chrome_103"@)[8] != ("chrome_112"@)[8]);
    assert("chrome_103"@ != "chrome_112"@);
    assert(("chrome_103"@)[8] != ("chrome_117"@)[8]);
    assert("chrome_103"@ != "chrome_117"@);
    assert(("chrome_103"@)[8] != ("chrome_120"@)[8]);
    assert("chrome_103"@ != "chrome_120"@);
    assert(("chrome_104"@)[9] != ("chrome_105"@)[9]);
    assert("chrome_104"@ != "chrome_105"@);
    assert(("chrome_104"@)[9] != ("chrome_106"@)[9]);
    assert("chrome_104"@ != "chrome_106"@);
    assert(("chrome_104"@)[9] != ("chrome_107"@)[9]);
    assert("chrome_104"@ != "chrome_107"@);
    assert(("chrome_104"@)[9] != ("chrome_108"@)[9]);
    assert("chrome_104"@ != "chrome_108"@);
    assert(("chrome_104"@)[9] != ("chrome_109"@)[9]);
    assert("chrome_104"@ != "chrome_109"@);
    assert(("chrome_104"@)[8] != ("chrome_110"@)[8]);
    assert("chrome_104"@ != "chrome_110"@);
    assert(("chrome_104"@)[8] != ("chrome_111"@)[8]);
    assert("chrome_104"@ != "chrome_111"@);
    assert(("chrome_104"@)[8] != ("chrome_112"@)[8]);
    assert("chrome_104"@ != "chrome_112"@);
    assert(("chrome_104"@)[8] != ("chrome_117"@)[8]);
    assert("chrome_104"@ != "chrome_117"@);
    assert(("chrome_104"@)[8] != ("chrome_120"@)[8]);
    assert("chrome_104"@ != "chrome_120"@);
    assert(("chrome_105"@)[9] != ("chrome_106"@)[9]);
    assert("chrome_105"@ != "chrome_106"@);
    assert(("chrome_105"@)[9] != ("chrome_107"@)[9]);
    assert("chrome_105"@ != "chrome_107"@);
    assert(("chrome_105"@)[9] != ("chrome_108"@)[9]);
    assert("chrome_105"@ != "chrome_108"@);
    assert(("chrome_105"@)[9] != ("chrome_109"@)[9]);
    assert("chrome_105"@ != "chrome_109"@);
    assert(("chrome_105"@)[8] != ("chrome_110"@)[8]);
    assert("chrome_105"@ != "chrome_110"@);
    assert(("chrome_105"@)[8] != ("chrome_111"@)[8]);
    assert("chrome_105"@ != "chrome_111"@);
    assert(("chrome_105"@)[8] != ("chrome_112"@)[8]);
    assert("chrome_105"@ != "chrome_112"@);
    assert(("chrome_105"@)[8] != ("chrome_117"@)[8]);
    assert("chrome_105"@ != "chrome_117"@);
    assert(("chrome_105"@)[8] != ("chrome_120"@)[8]);
    assert("chrome_105"@ != "chrome_120"@);
    assert(("chrome_106"@)[9] != ("chrome_107"@)[9]);
    assert("chrome_106"@ != "chrome_107"@);
    assert(("chrome_106"@)[9] != ("chrome_108"@)[9]);
    assert("chrome_106"@ != "chrome_108"@);
    assert(("chrome_106"@)[9] != ("chrome_109"@)[9]);
    assert("chrome_106"@ != "chrome_109"@);
    assert(("chrome_106"@)[8] != ("chrome_110"@)[8]);
    assert("chrome_106"@ != "chrome_110"@);
    assert(("chrome_106"@)[8] != ("chrome_111"@)[8]);
    assert("chrome_106"@ != "chrome_111"@);
    assert(("chrome_106"@)[8] != ("chrome_112"@)[8]);
    assert("chrome_106"@ != "chrome_112"@);
    assert(("chrome_106"@)[8] != ("chrome_117"@)[8]);
    assert("chrome_106"@ != "chrome_117"@);
    assert(("chrome_106"@)[8] != ("chrome_120"@)[8]);
    assert("chrome_106"@ != "chrome_120"@);
    assert(("chrome_107"@)[9] != ("chrome_108"@)[9]);
    assert("chrome_107"@ != "chrome_108"@);
    assert(("chrome_107"@)[9] != ("chrome_109"@)[9]);
    assert("chrome_107"@ != "chrome_109"@);
    assert(("chrome_107"@)[8] != ("chrome_110"@)[8]);
    assert("chrome_107"@ != "chrome_110"@);
    assert(("chrome_107"@)[8] != ("chrome_111"@)[8]);
    assert("chrome_107"@ != "chrome_111"@);
    assert(("chrome_107"@)[8] != ("chrome_112"@)[8]);
    assert("chrome_107"@ != "chrome_112"@);
    assert(("chrome_107"@)[8] != ("chrome_117"@)[8]);
    assert("chrome_107"@ != "chrome_117"@);
    assert(("chrome_107"@)[8] != ("chrome_120"@)[8]);
    assert("chrome_107"@ != "chrome_120"@);
    assert(("chrome_108"@)[9] != ("chrome_109"@)[9]);
    assert("chrome_108"@ != "chrome_109"@);
    assert(("chrome_108"@)[8] != ("chrome_110"@)[8]);
    assert("chrome_108"@ != "chrome_110"@);
    assert(("chrome_108"@)[8] != ("chrome_111"@)[8]);
    assert("chrome_108"@ != "chrome_111"@);
    assert(("chrome_108"@)[8] != ("chrome_112"@)[8]);
    assert("chrome_108"@ != "chrome_112"@);
    assert(("chrome_108"@)[8] != ("chrome_117"@)[8]);
    assert("chrome_108"@ != "chrome_117"@);
    assert(("chrome_108"@)[8] != ("chrome_120"@)[8]);
    assert("chrome_108"@ != "chrome_120"@);
    assert(("chrome_109"@)[8] != ("chrome_110"@)[8]);
    assert("chrome_109"@ != "chrome_110"@);
    assert(("chrome_109"@)[8] != ("chrome_111"@)[8]);
    assert("chrome_109"@ != "chrome_111"@);
    assert(("chrome_109"@)[8] != ("chrome_112"@)[8]);
    assert("chrome_109"@ != "chrome_112"@);
    assert(("chrome_109"@)[8] != ("chrome_117"@)[8]);
    assert("chrome_109"@ != "chrome_117"@);
    assert(("chrome_109"@)[8] != ("chrome_120"@)[8]);
    assert("chrome_109"@ != "chrome_120"@);
    assert(("chrome_110"@)[9] != ("chrome_111"@)[9]);
    assert("chrome_110"@ != "chrome_111"@);
    assert(("chrome_110"@)[9] != ("chrome_112"@)[9]);
    assert("chrome_110"@ != "chrome_112"@);
    assert(("chrome_110"@)[9] != ("chrome_117"@)[9]);
    assert("chrome_110"@ != "chrome_117"@);
    assert(("chrome_110"@)[8] != ("chrome_120"@)[8]);
    assert("chrome_110"@ != "chrome_120"@);
    assert(("chrome_111"@)[9] != ("chrome_112"@)[9]);
    assert("chrome_111"@ != "chrome_112"@);
    assert(("chrome_111"@)[9] != ("chrome_117"@)[9]);
    assert("chrome_111"@ != "chrome_117"@);
    assert(("chrome_111"@)[8] != ("chrome_120"@)[8]);
    assert("chrome_111"@ != "chrome_120"@);
    assert(("chrome_112"@)[9] != ("chrome_117"@)[9]);
    assert("chrome_112"@ != "chrome_117"@);
    assert(("chrome_112"@)[8] != ("chrome_120"@)[8]);
    assert("chrome_112"@ != "chrome_120"@);
    assert(("chrome_117"@)[8] != ("chrome_120"@)[8]);
    assert("chrome_117"@ != "chrome_120"@);
    assert(("confirmed_ios"@)[0] != ("safari_15_6_1"@)[0]);
    assert("confirmed_ios"@ != "safari_15_6_1"@);
    assert(("firefox_102"@)[10] != ("firefox_104"@)[10]);
    assert("firefox_102"@ != "firefox_104"@);
    assert(("firefox_102"@)[10] != ("firefox_105"@)[10]);
    assert("firefox_102"@ != "firefox_105"@);
    assert(("firefox_102"@)[10] != ("firefox_106"@)[10]);
    assert("firefox_102"@ != "firefox_106"@);
    assert(("firefox_102"@)[10] != ("firefox_108"@)[10]);
    assert("firefox_102"@ != "firefox_108"@);
    assert(("firefox_102"@)[9] != ("firefox_110"@)[9]);
    assert("firefox_102"@ != "firefox_110"@);
    assert(("firefox_102"@)[9] != ("firefox_117"@)[9]);
    assert("firefox_102"@ != "firefox_117"@);
    assert(("firefox_102"@)[0] != ("safari_16_0"@)[0]);
    assert("firefox_102"@ != "safari_16_0"@);
    assert(("firefox_104"@)[10] != ("firefox_105"@)[10]);
    assert("firefox_104"@ != "firefox_105"@);
    assert(("firefox_104"@)[10] != ("firefox_106"@)[10]);
    assert("firefox_104"@ != "firefox_106"@);
    assert(("firefox_104"@)[10] != ("firefox_108"@)[10]);
    assert("firefox_104"@ != "firefox_108"@);
    assert(("firefox_104"@)[9] != ("firefox_110"@)[9]);
    assert("firefox_104"@ != "firefox_110"@);
    assert(("firefox_104"@)[9] != ("firefox_117"@)[9]);
    assert("firefox_104"@ != "firefox_117"@);
    assert(("firefox_104"@)[0] != ("safari_16_0"@)[0]);
    assert("firefox_104"@ != "safari_16_0"@);
    assert(("firefox_105"@)[10] != ("firefox_106"@)[10]);
    assert("firefox_105"@ != "firefox_106"@);
    assert(("firefox_105"@)[10] != ("firefox_108"@)[10]);
    assert("firefox_105"@ != "firefox_108"@);
    assert(("firefox_105"@)[9] != ("firefox_110"@)[9]);
    assert("firefox_105"@ != "firefox_110"@);
    assert(("firefox_105"@)[9] != ("firefox_117"@)[9]);
    assert("firefox_105"@ != "firefox_117"@);
    assert(("firefox_105"@)[0] != ("safari_16_0"@)[0]);
    assert("firefox_105"@ != "safari_16_0"@);
    assert(("firefox_106"@)[10] != ("firefox_108"@)[10]);
    assert("firefox_106"@ != "firefox_108"@);
    assert(("firefox_106"@)[9] != ("firefox_110"@)[9]);
    assert("firefox_106"@ != "firefox_110"@);
    assert(("firefox_106"@)[9] != ("firefox_117"@)[9]);
    assert("firefox_106"@ != "firefox_117"@);
    assert(("firefox_106"@)[0] != ("safari_16_0"@)[0]);
    assert("firefox_106"@ != "safari_16_0"@);
    assert(("firefox_108"@)[9] != ("firefox_110"@)[9]);
    assert("firefox_108"@ != "firefox_110"@);
    assert(("firefox_108"@)[9] != ("firefox_117"@)[9]);
    assert("firefox_108"@ != "firefox_117"@);
    assert(("firefox_108"@)[0] != ("safari_16_0"@)[0]);
    assert("firefox_108"@ != "safari_16_0"@);
    assert(("firefox_110"@)[10] != ("firefox_117"@)[10]);
    assert("firefox_110"@ != "firefox_117"@);
    assert(("firefox_110"@)[0] != ("safari_16_0"@)[0]);
    assert("firefox_110"@ != "safari_16_0"@);
    assert(("firefox_117"@)[0] != ("safari_16_0"@)[0]);
    assert("firefox_117"@ != "safari_16_0"@);
    assert(("mesh_ios"@)[0] != ("opera_89"@)[0]);
    assert("mesh_ios"@ != "opera_89"@);
    assert(("mesh_ios"@)[0] != ("opera_90"@)[0]);
    assert("mesh_ios"@ != "opera_90"@);
    assert(("mesh_ios"@)[0] != ("opera_91"@)[0]);
    assert("mesh_ios"@ != "opera_91"@);
    assert(("opera_89"@)[6] != ("opera_90"@)[6]);
    assert("opera_89"@ != "opera_90"@);
    assert(("opera_89"@)[6] != ("opera_91"@)[6]);
    assert("opera_89"@ != "opera_91"@);
    assert(("opera_90"@)[7] != ("opera_91"@)[7]);
    assert("opera_90"@ != "opera_91"@);
    assert(("mms_ios_2"@)[8] != ("mms_ios_3"@)[8]);
    assert("mms_ios_2"@ != "mms_ios_3"@);
    assert(("nike_ios_mobile"@)[0] != ("safari_ios_15_5"@)[0]);
    assert("nike_ios_mobile"@ != "safari_ios_15_5"@);
    assert(("nike_ios_mobile"@)[0] != ("safari_ios_15_6"@)[0]);
    assert("nike_ios_mobile"@ != "safari_ios_15_6"@);
    assert(("nike_ios_mobile"@)[0] != ("safari_ios_16_0"@)[0]);
    assert("nike_ios_mobile"@ != "safari_ios_16_0"@);
    assert(("safari_ios_15_5"@)[14] != ("safari_ios_15_6"@)[14]);
    assert("safari_ios_15_5"@ != "safari_ios_15_6"@);
    assert(("safari_ios_15_5"@)[12] != ("safari_ios_16_0"@)[12]);
    assert("safari_ios_15_5"@ != "safari_ios_16_0"@);
    assert(("safari_ios_15_6"@)[12] != ("safari_ios_16_0"@)[12]);
    assert("safari_ios_15_6"@ != "safari_ios_16_0"@);
}

impl H2Setting {
    /// The catalog value a wire name stands for, the first owner of a shared name.
    pub open spec fn of_wire(s: Seq<char>) -> Option<H2Setting> {
        if s == "HEADER_TABLE_SIZE"@ {
            Some(H2Setting::HeaderTableSize)
        } else if s == "ENABLE_PUSH"@ {
            Some(H2Setting::EnablePush)
        } else if s == "MAX_CONCURRENT_STREAMS"@ {
            Some(H2Setting::MaxConcurrentStreams)
        } else if s == "INITIAL_WINDOW_SIZE"@ {
            Some(H2Setting::InitialWindowSize)
        } else if s == "MAX_FRAME_SIZE"@ {
            Some(H2Setting::MaxFrameSize)
        } else if s == "MAX_HEADER_LIST_SIZE"@ {
            Some(H2Setting::MaxHeaderListSize)
        } else {
            None
        }
    }
}

/// Reading a written name gives the value back.
pub proof fn lemma_h2setting_wire_inverse(e: H2Setting)
    ensures
        H2Setting::of_wire(e.wire_spec()) == Some(e),
{
    reveal_strlit("ENABLE_PUSH");
    reveal_strlit("HEADER_TABLE_SIZE");
    reveal_strlit("INITIAL_WINDOW_SIZE");
    reveal_strlit("MAX_CONCURRENT_STREAMS");
    reveal_strlit("MAX_FRAME_SIZE");
    reveal_strlit("MAX_HEADER_LIST_SIZE");
    assert(("ENABLE_PUSH"@).len() == 11);
    assert(("HEADER_TABLE_SIZE"@).len() == 17);
    assert(("INITIAL_WINDOW_SIZE"@).len() == 19);
    assert(("MAX_CONCURRENT_STREAMS"@).len() == 22);
    assert(("MAX_FRAME_SIZE"@).len() == 14);
    assert(("MAX_HEADER_LIST_SIZE"@).len() == 20);
}

impl SupportedVersion {
    /// The catalog value a wire name stands for, the first owner of a shared name.
    pub open spec fn of_wire(s: Seq<char>) -> Option<SupportedVersion> {
        if s == "GREASE"@ {
            Some(SupportedVersion::Grease)
        } else if s == "1.3"@ {
            Some(SupportedVersion::V1_3)
        } else if s == "1.2"@ {
            Some(SupportedVersion::V1_2)
        } else if s == "1.1"@ {
            Some(SupportedVersion::V1_1)
        } else if s == "1.0"@ {
            Some(SupportedVersion::V1_0)
        } else {
            None
        }
    }
}

/// Reading a written name gives the value back.
pub proof fn lemma_supportedversion_wire_inverse(e: SupportedVersion)
    ensures
        SupportedVersion::of_wire(e.wire_spec()) == Some(e),
{
    reveal_strlit("1.0");
    reveal_strlit("1.1");
    reveal_strlit("1.2");
    reveal_strlit("1.3");
    reveal_strlit("GREASE");
    assert(("1.0"@).len() == 3);
    assert(("1.1"@).len() == 3);
    assert(("1.2"@).len() == 3);
    assert(("1.3"@).len() == 3);
    assert(("GREASE"@).len() == 6);
    assert(("1.0"@)[2] != ("1.1"@)[2]);
    assert("1.0"@ != "1.1"@);
    assert(("1.0"@)[2] != ("1.2"@)[2]);
    assert("1.0"@ != "1.2"@);
    assert(("1.0"@)[2] != ("1.3"@)[2]);
    assert("1.0"@ != "1.3"@);
    assert(("1.1"@)[2] != ("1.2"@)[2]);
    assert("1.1"@ != "1.2"@);
    assert(("1.1"@)[2] != ("1.3"@)[2]);
    assert("1.1"@ != "1.3"@);
    assert(("1.2"@)[2] != ("1.3"@)[2]);
    assert("1.2"@ != "1.3"@);
}

impl SignatureAlgorithm {
    /// The catalog value a wire name stands for, the first owner of a shared name.
    pub open spec fn of_wire(s: Seq<char>) -> Option<SignatureAlgorithm> {
        if s == "PKCS1WithSHA256"@ {
            Some(SignatureAlgorithm::PKCS1WithSHA256)
        } else if s == "PKCS1WithSHA384"@ {
            Some(SignatureAlgorithm::PKCS1WithSHA384)
        } else if s == "PKCS1WithSHA512"@ {
            Some(SignatureAlgorithm::PKCS1WithSHA512)
        } else if s == "PSSWithSHA256"@ {
            Some(SignatureAlgorithm::PSSWithSHA256)
        } else if s == "PSSWithSHA384"@ {
            Some(SignatureAlgorithm::PSSWithSHA384)
        } else if s == "PSSWithSHA512"@ {
            Some(SignatureAlgorithm::PSSWithSHA512)
        } else if s == "ECDSAWithP256AndSHA256"@ {
            Some(SignatureAlgorithm::ECDSAWithP256AndSHA256)
        } else if s == "ECDSAWithP384AndSHA384"@ {
            Some(SignatureAlgorithm::ECDSAWithP384AndSHA384)
        } else if s == "ECDSAWithP521AndSHA512"@ {
            Some(SignatureAlgorithm::ECDSAWithP521AndSHA512)
        } else if s == "PKCS1WithSHA1"@ {
            Some(SignatureAlgorithm::PKCS1WithSHA1)
        } else if s == "ECDSAWithSHA1"@ {
            Some(SignatureAlgorithm::ECDSAWithSHA1)
        } else if s == "Ed25519"@ {
            Some(SignatureAlgorithm::Ed25519)
        } else {
            None
        }
    }
}

/// Reading a written name gives the value back.
pub proof fn lemma_signaturealgorithm_wire_inverse(e: SignatureAlgorithm)
    ensures
        SignatureAlgorithm::of_wire(e.wire_spec()) == Some(e),
{
    reveal_strlit("ECDSAWithP256AndSHA256");
    reveal_strlit("ECDSAWithP384AndSHA384");
    reveal_strlit("ECDSAWithP521AndSHA512");
    reveal_strlit("ECDSAWithSHA1");
    reveal_strlit("Ed25519");
    reveal_strlit("PKCS1WithSHA1");
    reveal_strlit("PKCS1WithSHA256");
    reveal_strlit("PKCS1WithSHA384");
    reveal_strlit("PKCS1WithSHA512");
    reveal_strlit("PSSWithSHA256");
    reveal_strlit("PSSWithSHA384");
    reveal_strlit("PSSWithSHA512");
    assert(("ECDSAWithP256AndSHA256"@).len() == 22);
    assert(("ECDSAWithP384AndSHA384"@).len() == 22);
    assert(("ECDSAWithP521AndSHA512"@).len() == 22);
    assert(("ECDSAWithSHA1"@).len() == 13);
    assert(("Ed25519"@).len() == 7);
    assert(("PKCS1WithSHA1"@).len() == 13);
    assert(("PKCS1WithSHA256"@).len() == 15);
    assert(("PKCS1WithSHA384"@).len() == 15);
    assert(("PKCS1WithSHA512"@).len() == 15);
    assert(("PSSWithSHA256"@).len() == 13);
    assert(("PSSWithSHA384"@).len() == 13);
    assert(("PSSWithSHA512"@).len() == 13);
    assert(("ECDSAWithP256AndSHA256"@)[10] != ("ECDSAWithP384AndSHA384"@)[10]);
    assert("ECDSAWithP256AndSHA256"@ != "ECDSAWithP384AndSHA384"@);
    assert(("ECDSAWithP256AndSHA256"@)[10] != ("ECDSAWithP521AndSHA512"@)[10]);
    assert("ECDSAWithP256AndSHA256"@ != "ECDSAWithP521AndSHA512"@);
    assert(("ECDSAWithP384AndSHA384"@)[10] != ("ECDSAWithP521AndSHA512"@)[10]);
    assert("ECDSAWithP384AndSHA384"@ != "ECDSAWithP521AndSHA512"@);
    assert(("ECDSAWithSHA1"@)[0] != ("PKCS1WithSHA1"@)[0]);
    assert("ECDSAWithSHA1"@ != "PKCS1WithSHA1"@);
    assert(("ECDSAWithSHA1"@)[0] != ("PSSWithSHA256"@)[0]);
    assert("ECDSAWithSHA1"@ != "PSSWithSHA256"@);
    assert(("ECDSAWithSHA1"@)[0] != ("PSSWithSHA384"@)[0]);
    assert("ECDSAWithSHA1"@ != "PSSWithSHA384"@);
    assert(("ECDSAWithSHA1"@)[0] != ("PSSWithSHA512"@)[0]);
    assert("ECDSAWithSHA1"@ != "PSSWithSHA512"@);
    assert(("PKCS1WithSHA1"@)[1] != ("PSSWithSHA256"@)[1]);
    assert("PKCS1WithSHA1"@ != "PSSWithSHA256"@);
    assert(("PKCS1WithSHA1"@)[1] != ("PSSWithSHA384"@)[1]);
    assert("PKCS1WithSHA1"@ != "PSSWithSHA384"@);
    assert(("PKCS1WithSHA1"@)[1] != ("PSSWithSHA512"@)[1]);
    assert("PKCS1WithSHA1"@ != "PSSWithSHA512"@);
    assert(("PSSWithSHA256"@)[10] != ("PSSWithSHA384"@)[10]);
    assert("PSSWithSHA256"@ != "PSSWithSHA384"@);
    assert(("PSSWithSHA256"@)[10] != ("PSSWithSHA512"@)[10]);
    assert("PSSWithSHA256"@ != "PSSWithSHA512"@);
    assert(("PSSWithSHA384"@)[10] != ("PSSWithSHA512"@)[10]);
    assert("PSSWithSHA384"@ != "PSSWithSHA512"@);
    assert(("PKCS1WithSHA256"@)[12] != ("PKCS1WithSHA384"@)[12]);
    assert("PKCS1WithSHA256"@ != "PKCS1WithSHA384"@);
    assert(("PKCS1WithSHA256"@)[12] != ("PKCS1WithSHA512"@)[12]);
    assert("PKCS1WithSHA256"@ != "PKCS1WithSHA512"@);
    assert(("PKCS1WithSHA384"@)[12] != ("PKCS1WithSHA512"@)[12]);
    assert("PKCS1WithSHA384"@ != "PKCS1WithSHA512"@);
}

impl CertCompressionAlgorithm {
    /// The catalog value a wire name stands for, the first owner of a shared name.
    pub open spec fn of_wire(s: Seq<char>) -> Option<CertCompressionAlgorithm> {
        if s == "zlib"@ {
            Some(CertCompressionAlgorithm::Zlib)
        } else if s == "brotli"@ {
            Some(CertCompressionAlgorithm::Brotli)
        } else if s == "zstd"@ {
            Some(CertCompressionAlgorithm::Zstd)
        } else {
            None
        }
    }
}

/// Reading a written name gives the value back.
pub proof fn lemma_certcompressionalgorithm_wire_inverse(e: CertCompressionAlgorithm)
    ensures
        CertCompressionAlgorithm::of_wire(e.wire_spec()) == Some(e),
{
    reveal_strlit("brotli");
    reveal_strlit("zlib");
    reveal_strlit("zstd");
    assert(("brotli"@).len() == 6);
    assert(("zlib"@).len() == 4);
    assert(("zstd"@).len() == 4);
    assert(("zlib"@)[1] != ("zstd"@)[1]);
    assert("zlib"@ != "zstd"@);
}

impl DelegatedCredential {
    /// The catalog value a wire name stands for, the first owner of a shared name.
    pub open spec fn of_wire(s: Seq<char>) -> Option<DelegatedCredential> {
        if s == "PKCS1WithSHA256"@ {
            Some(DelegatedCredential::PKCS1WithSHA256)
        } else if s == "PKCS1WithSHA384"@ {
            Some(DelegatedCredential::PKCS1WithSHA384)
        } else if s == "PKCS1WithSHA512"@ {
            Some(DelegatedCredential::PKCS1WithSHA512)
        } else if s == "PSSWithSHA256"@ {
            Some(DelegatedCredential::PSSWithSHA256)
        } else if s == "PSSWithSHA384"@ {
            Some(DelegatedCredential::PSSWithSHA384)
        } else if s == "PSSWithSHA512"@ {
            Some(DelegatedCredential::PSSWithSHA512)
        } else if s == "ECDSAWithP256AndSHA256"@ {
            Some(DelegatedCredential::ECDSAWithP256AndSHA256)
        } else if s == "ECDSAWithP384AndSHA384"@ {
            Some(DelegatedCredential::ECDSAWithP384AndSHA384)
        } else if s == "ECDSAWithP521AndSHA512"@ {
            Some(DelegatedCredential::ECDSAWithP521AndSHA512)
        } else if s == "PKCS1WithSHA1"@ {
            Some(DelegatedCredential::PKCS1WithSHA1)
        } else if s == "ECDSAWithSHA1"@ {
            Some(DelegatedCredential::ECDSAWithSHA1)
        } else if s == "Ed25519"@ {
            Some(DelegatedCredential::Ed25519)
        } else if s == "SHA224_RSA"@ {
            Some(DelegatedCredential::SHA224RSA)
        } else if s == "SHA224_ECDSA"@ {
            Some(DelegatedCredential::SHA224ECDSA)
        } else {
            None
        }
    }
}

/// Reading a written name gives the value back.
pub proof fn lemma_delegatedcredential_wire_inverse(e: DelegatedCredential)
    ensures
        DelegatedCredential::of_wire(e.wire_spec()) == Some(e),
{
    reveal_strlit("ECDSAWithP256AndSHA256");
    reveal_strlit("ECDSAWithP384AndSHA384");
    reveal_strlit("ECDSAWithP521AndSHA512");
    reveal_strlit("ECDSAWithSHA1");
    reveal_strlit("Ed25519");
    reveal_strlit("PKCS1WithSHA1");
    reveal_strlit("PKCS1WithSHA256");
    reveal_strlit("PKCS1WithSHA384");
    reveal_strlit("PKCS1WithSHA512");
    reveal_strlit("PSSWithSHA256");
    reveal_strlit("PSSWithSHA384");
    reveal_strlit("PSSWithSHA512");
    reveal_strlit("SHA224_ECDSA");
    reveal_strlit("SHA224_RSA");
    assert(("ECDSAWithP256AndSHA256"@).len() == 22);
    assert(("ECDSAWithP384AndSHA384"@).len() == 22);
    assert(("ECDSAWithP521AndSHA512"@).len() == 22);
    assert(("ECDSAWithSHA1"@).len() == 13);
    assert(("Ed25519"@).len() == 7);
    assert(("PKCS1WithSHA1"@).len() == 13);
    assert(("PKCS1WithSHA256"@).len() == 15);
    assert(("PKCS1WithSHA384"@).len() == 15);
    assert(("PKCS1WithSHA512"@).len() == 15);
    assert(("PSSWithSHA256"@).len() == 13);
    assert(("PSSWithSHA384"@).len() == 13);
    assert(("PSSWithSHA512"@).len() == 13);
    assert(("SHA224_ECDSA"@).len() == 12);
    assert(("SHA224_RSA"@).len() == 10);
    assert(("ECDSAWithP256AndSHA256"@)[10] != ("ECDSAWithP384AndSHA384"@)[10]);
    assert("ECDSAWithP256AndSHA256"@ != "ECDSAWithP384AndSHA384"@);
    assert(("ECDSAWithP256AndSHA256"@)[10] != ("ECDSAWithP521AndSHA512"@)[10]);
    assert("ECDSAWithP256AndSHA256"@ != "ECDSAWithP521AndSHA512"@);
    assert(("ECDSAWithP384AndSHA384"@)[10] != ("ECDSAWithP521AndSHA512"@)[10]);
    assert("ECDSAWithP384AndSHA384"@ != "ECDSAWithP521AndSHA512"@);
    assert(("ECDSAWithSHA1"@)[0] != ("PKCS1WithSHA1"@)[0]);
    assert("ECDSAWithSHA1"@ != "PKCS1WithSHA1"@);
    assert(("ECDSAWithSHA1"@)[0] != ("PSSWithSHA256"@)[0]);
    assert("ECDSAWithSHA1"@ != "PSSWithSHA256"@);
    assert(("ECDSAWithSHA1"@)[0] != ("PSSWithSHA384"@)[0]);
    assert("ECDSAWithSHA1"@ != "PSSWithSHA384"@);
    assert(("ECDSAWithSHA1"@)[0] != ("PSSWithSHA512"@)[0]);
    assert("ECDSAWithSHA1"@ != "PSSWithSHA512"@);
    assert(("PKCS1WithSHA1"@)[1] != ("PSSWithSHA256"@)[1]);
    assert("PKCS1WithSHA1"@ != "PSSWithSHA256"@);
    assert(("PKCS1WithSHA1"@)[1] != ("PSSWithSHA384"@)[1]);
    assert("PKCS1WithSHA1"@ != "PSSWithSHA384"@);
    assert(("PKCS1WithSHA1"@)[1] != ("PSSWithSHA512"@)[1]);
    assert("PKCS1WithSHA1"@ != "PSSWithSHA512"@);
    assert(("PSSWithSHA256"@)[10] != ("PSSWithSHA384"@)[10]);
    assert("PSSWithSHA256"@ != "PSSWithSHA384"@);
    assert(("PSSWithSHA256"@)[10] != ("PSSWithSHA512"@)[10]);
    assert("PSSWithSHA256"@ != "PSSWithSHA512"@);
    assert(("PSSWithSHA384"@)[10] != ("PSSWithSHA512"@)[10]);
    assert("PSSWithSHA384"@ != "PSSWithSHA512"@);
    assert(("PKCS1WithSHA256"@)[12] != ("PKCS1WithSHA384"@)[12]);
    assert("PKCS1WithSHA256"@ != "PKCS1WithSHA384"@);
    assert(("PKCS1WithSHA256"@)[12] != ("PKCS1WithSHA512"@)[12]);
    assert("PKCS1WithSHA256"@ != "PKCS1WithSHA512"@);
    assert(("PKCS1WithSHA384"@)[12] != ("PKCS1WithSHA512"@)[12]);
    assert("PKCS1WithSHA384"@ != "PKCS1WithSHA512"@);
}

impl KeyShareCurve {
    /// The catalog value a wire name stands for, the first owner of a shared name.
    pub open spec fn of_wire(s: Seq<char>) -> Option<KeyShareCurve> {
        if s == "GREASE"@ {
            Some(KeyShareCurve::Grease)
        } else if s == "P256"@ {
            Some(KeyShareCurve::P256)
        } else if s == "P384"@ {
            Some(KeyShareCurve::P384)
        } else if s == "P521"@ {
            Some(KeyShareCurve::P521)
        } else if s == "X25519"@ {
            Some(KeyShareCurve::X25519)
        } else {
            None
        }
    }
}

/// Reading a written name gives the value back.
pub proof fn lemma_keysharecurve_wire_inverse(e: KeyShareCurve)
    ensures
        KeyShareCurve::of_wire(e.wire_spec()) == Some(e),
{
    reveal_strlit("GREASE");
    reveal_strlit("P256");
    reveal_strlit("P384");
    reveal_strlit("P521");
    reveal_strlit("X25519");
    assert(("GREASE"@).len() == 6);
    assert(("P256"@).len() == 4);
    assert(("P384"@).len() == 4);
    assert(("P521"@).len() == 4);
    assert(("X25519"@).len() == 6);
    assert(("GREASE"@)[0] != ("X25519"@)[0]);
    assert("GREASE"@ != "X25519"@);
    assert(("P256"@)[1] != ("P384"@)[1]);
    assert("P256"@ != "P384"@);
    assert(("P256"@)[1] != ("P521"@)[1]);
    assert("P256"@ != "P521"@);
    assert(("P384"@)[1] != ("P521"@)[1]);
    assert("P384"@ != "P521"@);
}

impl KdfId {
    /// The catalog value a wire name stands for, the first owner of a shared name.
    pub open spec fn of_wire(s: Seq<char>) -> Option<KdfId> {
        if s == "HKDF_SHA256"@ {
            Some(KdfId::HKDF_SHA256)
        } else if s == "HKDF_SHA384"@ {
            Some(KdfId::HKDF_SHA384)
        } else if s == "HKDF_SHA512"@ {
            Some(KdfId::HKDF_SHA512)
        } else {
            None
        }
    }
}

/// Reading a written name gives the value back.
pub proof fn lemma_kdfid_wire_inverse(e: KdfId)
    ensures
        KdfId::of_wire(e.wire_spec()) == Some(e),
{
    reveal_strlit("HKDF_SHA256");
    reveal_strlit("HKDF_SHA384");
    reveal_strlit("HKDF_SHA512");
    assert(("HKDF_SHA256"@).len() == 11);
    assert(("HKDF_SHA384"@).len() == 11);
    assert(("HKDF_SHA512"@).len() == 11);
    assert(("HKDF_SHA256"@)[8] != ("HKDF_SHA384"@)[8]);
    assert("HKDF_SHA256"@ != "HKDF_SHA384"@);
    assert(("HKDF_SHA256"@)[8] != ("HKDF_SHA512"@)[8]);
    assert("HKDF_SHA256"@ != "HKDF_SHA512"@);
    assert(("HKDF_SHA384"@)[8] != ("HKDF_SHA512"@)[8]);
    assert("HKDF_SHA384"@ != "HKDF_SHA512"@);
}

impl AeadId {
    /// The catalog value a wire name stands for, the first owner of a shared name.
    pub open spec fn of_wire(s: Seq<char>) -> Option<AeadId> {
        if s == "AEAD_AES_128_GCM"@ {
            Some(AeadId::AEAD_AES_128_GCM)
        } else if s == "AEAD_AES_256_GCM"@ {
            Some(AeadId::AEAD_AES_256_GCM)
        } else if s == "AEAD_CHACHA20_POLY1305"@ {
            Some(AeadId::AEAD_CHACHA20_POLY1305)
        } else {
            None
        }
    }
}

/// Reading a written name gives the value back.
pub proof fn lemma_aeadid_wire_inverse(e: AeadId)
    ensures
        AeadId::of_wire(e.wire_spec()) == Some(e),
{
    reveal_strlit("AEAD_AES_128_GCM");
    reveal_strlit("AEAD_AES_256_GCM");
    reveal_strlit("AEAD_CHACHA20_POLY1305");
    assert(("AEAD_AES_128_GCM"@).len() == 16);
    assert(("AEAD_AES_256_GCM"@).len() == 16);
    assert(("AEAD_CHACHA20_POLY1305"@).len() == 22);
    assert(("AEAD_AES_128_GCM"@)[9] != ("AEAD_AES_256_GCM"@)[9]);
    assert("AEAD_AES_128_GCM"@ != "AEAD_AES_256_GCM"@);
}

} // verus!
