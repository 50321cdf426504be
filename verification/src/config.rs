//! The key-specification model: a declarative (wire) description of one
//! asymmetric key to generate on the device, and its validated, fully typed
//! form.
//!
//! The wire and device-side representations are distinct types joined only by
//! explicit, total mappings, so that nothing is defaulted silently and an
//! unknown wire value is a hard, classified failure.

use vstd::prelude::*;

use crate::hsm;
use crate::json;
use crate::json::JsonVal;
use crate::json::JsonValue;

verus! {

/// How reading a key-specification document failed.
#[derive(Clone, Copy, Debug, PartialEq, Eq, Structural)]
pub enum SpecParseError {
    /// The text is not one flat object of string and integer members.
    Syntax,
    /// A member is not one of the specification's fields.
    UnknownField,
    /// A required field occurs more than once.
    DuplicateField,
    /// A required field is absent.
    MissingField,
    /// A field holds a string where an integer is required, or the reverse.
    WrongType,
    /// An enum field holds an unrecognized value.
    UnknownValue,
    /// The object identifier does not fit the device's identifier space.
    IdOutOfRange,
}

/// Classified errors from building a [`KeySpec`].
#[derive(Clone, Copy, Debug, PartialEq, Eq, Structural)]
pub enum ConfigError {
    /// A label was too long for the device's label encoding.
    BadLabel,
    /// A capability value could not be represented.
    BadCapability,
    /// The document itself could not be read.
    BadKeySpec { e: SpecParseError },
}

/// Wire form of the asymmetric key algorithm.
#[derive(Copy, Clone, Debug, PartialEq, Eq, Structural)]
pub enum OksAlgorithm {
    Rsa4096,
    Ecp384,
}

/// Wire form of the security domain.
#[derive(Copy, Clone, Debug, PartialEq, Eq, Structural)]
#[allow(non_camel_case_types)]
pub enum OksDomain {
    DOM1,
}

/// Wire form of the capability set.
#[derive(Copy, Clone, Debug, PartialEq, Eq, Structural)]
pub enum OksCapability {
    All,
}

/// Hash algorithm a certificate request will use.
#[derive(Copy, Clone, Debug, PartialEq, Eq, Structural)]
pub enum Hash {
    Sha256,
    Sha384,
}

/// What the generated key is for. Each value names one certificate
/// extension policy.
#[derive(Copy, Clone, Debug, PartialEq, Eq, Structural)]
pub enum Purpose {
    ProductionCodeSigningCA,
    DevelopmentCodeSigningCA,
    ProductionCodeSigning,
    DevelopmentCodeSigning,
    Identity,
}

/// The extension-section name each purpose maps to.
pub open spec fn purpose_section(p: Purpose) -> Seq<char> {
    match p {
        Purpose::ProductionCodeSigningCA => "v3_code_signing_prod_ca"@,
        Purpose::DevelopmentCodeSigningCA => "v3_code_signing_dev_ca"@,
        Purpose::ProductionCodeSigning => "v3_code_signing_prod"@,
        Purpose::DevelopmentCodeSigning => "v3_code_signing_dev"@,
        Purpose::Identity => "v3_identity"@,
    }
}

impl Purpose {
    /// The certificate extension-section name this purpose stands for.
    pub fn to_string(&self) -> (r: String)
        ensures
            r@ == purpose_section(*self),
    {
        let s = match self {
            Purpose::ProductionCodeSigningCA => "v3_code_signing_prod_ca",
            Purpose::DevelopmentCodeSigningCA => "v3_code_signing_dev_ca",
            Purpose::ProductionCodeSigning => "v3_code_signing_prod",
            Purpose::DevelopmentCodeSigning => "v3_code_signing_dev",
            Purpose::Identity => "v3_identity",
        };
        s.to_owned()
    }
}

/// Wire form of the label: any string; its length is checked only when it
/// is converted to the device-side form.
#[derive(Debug, Clone, PartialEq, Eq)]
pub struct OksLabel(pub String);

impl View for OksLabel {
    type V = Seq<char>;

    open spec fn view(&self) -> Seq<char> {
        self.0@
    }
}

/// The wire enum value each algorithm name denotes.
pub open spec fn algorithm_of_str(s: Seq<char>) -> Option<OksAlgorithm> {
    if s == "Rsa4096"@ {
        Some(OksAlgorithm::Rsa4096)
    } else if s == "Ecp384"@ {
        Some(OksAlgorithm::Ecp384)
    } else {
        None
    }
}

/// The wire enum value each capability name denotes.
pub open spec fn capability_of_str(s: Seq<char>) -> Option<OksCapability> {
    if s == "All"@ {
        Some(OksCapability::All)
    } else {
        None
    }
}

/// The wire enum value each domain name denotes.
pub open spec fn domain_of_str(s: Seq<char>) -> Option<OksDomain> {
    if s == "DOM1"@ {
        Some(OksDomain::DOM1)
    } else {
        None
    }
}

/// The wire enum value each hash name denotes.
pub open spec fn hash_of_str(s: Seq<char>) -> Option<Hash> {
    if s == "Sha256"@ {
        Some(Hash::Sha256)
    } else if s == "Sha384"@ {
        Some(Hash::Sha384)
    } else {
        None
    }
}

/// The wire enum value each purpose name denotes.
pub open spec fn purpose_of_str(s: Seq<char>) -> Option<Purpose> {
    if s == "ProductionCodeSigningCA"@ {
        Some(Purpose::ProductionCodeSigningCA)
    } else if s == "DevelopmentCodeSigningCA"@ {
        Some(Purpose::DevelopmentCodeSigningCA)
    } else if s == "ProductionCodeSigning"@ {
        Some(Purpose::ProductionCodeSigning)
    } else if s == "DevelopmentCodeSigning"@ {
        Some(Purpose::DevelopmentCodeSigning)
    } else if s == "Identity"@ {
        Some(Purpose::Identity)
    } else {
        None
    }
}

/// The name under which each algorithm value is written.
pub open spec fn algorithm_str(a: OksAlgorithm) -> Seq<char> {
    match a {
        OksAlgorithm::Rsa4096 => "Rsa4096"@,
        OksAlgorithm::Ecp384 => "Ecp384"@,
    }
}

/// The name under which each capability value is written.
pub open spec fn capability_str(c: OksCapability) -> Seq<char> {
    match c {
        OksCapability::All => "All"@,
    }
}

/// The name under which each domain value is written.
pub open spec fn domain_str(d: OksDomain) -> Seq<char> {
    match d {
        OksDomain::DOM1 => "DOM1"@,
    }
}

/// The name under which each hash value is written.
pub open spec fn hash_str(h: Hash) -> Seq<char> {
    match h {
        Hash::Sha256 => "Sha256"@,
        Hash::Sha384 => "Sha384"@,
    }
}

/// The name under which each purpose value is written.
pub open spec fn purpose_str(p: Purpose) -> Seq<char> {
    match p {
        Purpose::ProductionCodeSigningCA => "ProductionCodeSigningCA"@,
        Purpose::DevelopmentCodeSigningCA => "DevelopmentCodeSigningCA"@,
        Purpose::ProductionCodeSigning => "ProductionCodeSigning"@,
        Purpose::DevelopmentCodeSigning => "DevelopmentCodeSigning"@,
        Purpose::Identity => "Identity"@,
    }
}

fn algorithm_of_str_x(s: &str) -> (r: Option<OksAlgorithm>)
    ensures
        r == algorithm_of_str(s@),
{
    if json::str_eq(s, "Rsa4096") {
        Some(OksAlgorithm::Rsa4096)
    } else if json::str_eq(s, "Ecp384") {
        Some(OksAlgorithm::Ecp384)
    } else {
        None
    }
}

fn capability_of_str_x(s: &str) -> (r: Option<OksCapability>)
    ensures
        r == capability_of_str(s@),
{
    if json::str_eq(s, "All") {
        Some(OksCapability::All)
    } else {
        None
    }
}

fn domain_of_str_x(s: &str) -> (r: Option<OksDomain>)
    ensures
        r == domain_of_str(s@),
{
    if json::str_eq(s, "DOM1") {
        Some(OksDomain::DOM1)
    } else {
        None
    }
}

fn hash_of_str_x(s: &str) -> (r: Option<Hash>)
    ensures
        r == hash_of_str(s@),
{
    if json::str_eq(s, "Sha256") {
        Some(Hash::Sha256)
    } else if json::str_eq(s, "Sha384") {
        Some(Hash::Sha384)
    } else {
        None
    }
}

fn purpose_of_str_x(s: &str) -> (r: Option<Purpose>)
    ensures
        r == purpose_of_str(s@),
{
    if json::str_eq(s, "ProductionCodeSigningCA") {
        Some(Purpose::ProductionCodeSigningCA)
    } else if json::str_eq(s, "DevelopmentCodeSigningCA") {
        Some(Purpose::DevelopmentCodeSigningCA)
    } else if json::str_eq(s, "ProductionCodeSigning") {
        Some(Purpose::ProductionCodeSigning)
    } else if json::str_eq(s, "DevelopmentCodeSigning") {
        Some(Purpose::DevelopmentCodeSigning)
    } else if json::str_eq(s, "Identity") {
        Some(Purpose::Identity)
    } else {
        None
    }
}

/// The certificate-authority configuration text a key request
/// determines: the fixed template with the key's identifier (written in
/// decimal, zero-padded to four digits) and its hash algorithm filled in.
pub open spec fn ca_config_model(id: u16, h: Hash) -> Seq<char> {
    r#"
openssl_conf                = default_modules

[default_modules]
engines                     = engine_section

[engine_section]
pkcs11                      = pkcs11_section

[pkcs11_section]
engine_id                   = pkcs11
MODULE_PATH                 = /usr/lib/pkcs11/yubihsm_pkcs11.so
INIT_ARGS                   = connector=http://127.0.0.1:12345 debug
init                        = 0
# PIN format: "<auth key id><auth key password>"
# password must be 12 characters, 4 for the key id, 8 for the password
#PIN                         = "0001password"

[ ca ]
default_ca                  = CA_default

[ CA_default ]
dir                         = ./
certs                       = $dir/certs
crl_dir                     = $dir/crl
database                    = $dir/index.txt
new_certs_dir               = $dir/newcerts
certificate                 = $dir/certs/ca.cert.pem
serial                      = $dir/serial
# key format:   <slot>:<key id>
private_key                 = 0:"#@ + zero_pad4_model(id) + r#"
x509_extensions             = v3_ca
name_opt                    = ca_default
cert_opt                    = ca_default
# certs may be retired, but they won't expire
default_enddate             = 99991231235959Z
default_crl_days            = 30
default_md                  = "#@ + hash_str(h) + r#"
preserve                    = no
policy                      = policy_match
email_in_dn                 = no
rand_serial                 = no
unique_subject              = yes

[ policy_match ]
countryName                 = optional
stateOrProvinceName         = optional
organizationName            = optional
organizationalUnitName      = optional
commonName                  = supplied
emailAddress                = optional

[ req ]
default_md                  = "#@ + hash_str(h)
        + r#"
x509_extensions             = v3_ca
string_mask                 = utf8only
default_enddate             = 99991231235959Z

[ v3_ca ]
subjectKeyIdentifier        = hash
authorityKeyIdentifier      = keyid:always,issuer
basicConstraints            = critical,CA:true
"#@
}

/// The identifier written in decimal, zero-padded to four digits.
pub open spec fn zero_pad4_model(id: u16) -> Seq<char> {
    if id < 10 {
        "000"@ + json::dec_digits(id as nat)
    } else if id < 100 {
        "00"@ + json::dec_digits(id as nat)
    } else if id < 1000 {
        "0"@ + json::dec_digits(id as nat)
    } else {
        json::dec_digits(id as nat)
    }
}

/// Executable twin of [`zero_pad4_model`].
fn zero_pad4(id: u16) -> (r: String)
    ensures
        r@ == zero_pad4_model(id),
{
    let mut r = if id < 10 {
        String::from_str("000")
    } else if id < 100 {
        String::from_str("00")
    } else if id < 1000 {
        String::from_str("0")
    } else {
        String::from_str("")
    };
    let d = json::dec_str(id as u64);
    r.append(d.as_str());
    proof {
        reveal_strlit("");
        assert(r@ =~= zero_pad4_model(id));
    }
    r
}

/// Writes the certificate-authority configuration for a validated key
/// request: exactly the text [`ca_config_model`] fixes for its identifier
/// and hash algorithm.
pub fn ca_config_text(id: u16, hash: Hash) -> (r: String)
    ensures
        r@ == ca_config_model(id, hash),
{
    let mut r = String::from_str(r#"
openssl_conf                = default_modules

[default_modules]
engines                     = engine_section

[engine_section]
pkcs11                      = pkcs11_section

[pkcs11_section]
engine_id                   = pkcs11
MODULE_PATH                 = /usr/lib/pkcs11/yubihsm_pkcs11.so
INIT_ARGS                   = connector=http://127.0.0.1:12345 debug
init                        = 0
# PIN format: "<auth key id><auth key password>"
# password must be 12 characters, 4 for the key id, 8 for the password
#PIN                         = "0001password"

[ ca ]
default_ca                  = CA_default

[ CA_default ]
dir                         = ./
certs                       = $dir/certs
crl_dir                     = $dir/crl
database                    = $dir/index.txt
new_certs_dir               = $dir/newcerts
certificate                 = $dir/certs/ca.cert.pem
serial                      = $dir/serial
# key format:   <slot>:<key id>
private_key                 = 0:"#);
    let pad = zero_pad4(id);
    r.append(pad.as_str());
    r.append(r#"
x509_extensions             = v3_ca
name_opt                    = ca_default
cert_opt                    = ca_default
# certs may be retired, but they won't expire
default_enddate             = 99991231235959Z
default_crl_days            = 30
default_md                  = "#);
    r.append(hash_str_x(hash));
    r.append(r#"
preserve                    = no
policy                      = policy_match
email_in_dn                 = no
rand_serial                 = no
unique_subject              = yes

[ policy_match ]
countryName                 = optional
stateOrProvinceName         = optional
organizationName            = optional
organizationalUnitName      = optional
commonName                  = supplied
emailAddress                = optional

[ req ]
default_md                  = "#);
    r.append(hash_str_x(hash));
    r.append(r#"
x509_extensions             = v3_ca
string_mask                 = utf8only
default_enddate             = 99991231235959Z

[ v3_ca ]
subjectKeyIdentifier        = hash
authorityKeyIdentifier      = keyid:always,issuer
basicConstraints            = critical,CA:true
"#);
    proof {
        assert(r@ =~= ca_config_model(id, hash));
    }
    r
}

/// The declarative form of one key request, exactly as the document wrote
/// it.
#[derive(Debug, Clone, PartialEq, Eq)]
pub struct OksKeySpec {
    pub common_name: String,
    pub id: u16,
    pub algorithm: OksAlgorithm,
    pub capabilities: OksCapability,
    pub domain: OksDomain,
    pub hash: Hash,
    pub label: OksLabel,
    pub purpose: Purpose,
}

/// The mathematical form of a wire key request.
pub struct OksKeySpecModel {
    pub common_name: Seq<char>,
    pub id: u16,
    pub algorithm: OksAlgorithm,
    pub capabilities: OksCapability,
    pub domain: OksDomain,
    pub hash: Hash,
    pub label: Seq<char>,
    pub purpose: Purpose,
}

impl View for OksKeySpec {
    type V = OksKeySpecModel;

    open spec fn view(&self) -> OksKeySpecModel {
        OksKeySpecModel {
            common_name: self.common_name@,
            id: self.id,
            algorithm: self.algorithm,
            capabilities: self.capabilities,
            domain: self.domain,
            hash: self.hash,
            label: self.label@,
            purpose: self.purpose,
        }
    }
}

/// The value of the first member named `key` at or after position `i`.
pub open spec fn lookup_from(
    ps: Seq<(Seq<char>, JsonVal)>,
    key: Seq<char>,
    i: int,
) -> Option<JsonVal>
    decreases ps.len() - i,
{
    if i < 0 || i >= ps.len() {
        None
    } else if ps[i].0 == key {
        Some(ps[i].1)
    } else {
        lookup_from(ps, key, i + 1)
    }
}

/// The value of the first member named `key`.
pub open spec fn lookup(ps: Seq<(Seq<char>, JsonVal)>, key: Seq<char>) -> Option<JsonVal> {
    lookup_from(ps, key, 0)
}

/// How many members are named `key`, counting from position `i`.
pub open spec fn count_key_from(ps: Seq<(Seq<char>, JsonVal)>, key: Seq<char>, i: int) -> nat
    decreases ps.len() - i,
{
    if i < 0 || i >= ps.len() {
        0
    } else {
        (if ps[i].0 == key {
            1nat
        } else {
            0nat
        }) + count_key_from(ps, key, i + 1)
    }
}

/// How many members are named `key`.
pub open spec fn count_key(ps: Seq<(Seq<char>, JsonVal)>, key: Seq<char>) -> nat {
    count_key_from(ps, key, 0)
}

/// Whether a member name is one of the specification's fields.
pub open spec fn is_known_key(k: Seq<char>) -> bool {
    k == "common_name"@ || k == "id"@ || k == "algorithm"@ || k == "capabilities"@ || k
        == "domain"@ || k == "hash"@ || k == "label"@ || k == "purpose"@
}

/// Whether every member from position `i` on bears a known name.
pub open spec fn all_known_from(ps: Seq<(Seq<char>, JsonVal)>, i: int) -> bool
    decreases ps.len() - i,
{
    if i < 0 || i >= ps.len() {
        true
    } else {
        is_known_key(ps[i].0) && all_known_from(ps, i + 1)
    }
}

/// What a parsed member list denotes: a wire key request, or the first
/// classified fault found in this order: an unknown member name; a
/// duplicated field; a missing field; a field holding the wrong value
/// type; an identifier that does not fit the device's identifier space;
/// an unrecognized enum value.
pub open spec fn validate_members(ps: Seq<(Seq<char>, JsonVal)>) -> Result<
    OksKeySpecModel,
    SpecParseError,
> {
    if !all_known_from(ps, 0) {
        Err(SpecParseError::UnknownField)
    } else if count_key(ps, "common_name"@) > 1 || count_key(ps, "id"@) > 1 || count_key(
        ps,
        "algorithm"@,
    ) > 1 || count_key(ps, "capabilities"@) > 1 || count_key(ps, "domain"@) > 1 || count_key(
        ps,
        "hash"@,
    ) > 1 || count_key(ps, "label"@) > 1 || count_key(ps, "purpose"@) > 1 {
        Err(SpecParseError::DuplicateField)
    } else if count_key(ps, "common_name"@) == 0 || count_key(ps, "id"@) == 0 || count_key(
        ps,
        "algorithm"@,
    ) == 0 || count_key(ps, "capabilities"@) == 0 || count_key(ps, "domain"@) == 0 || count_key(
        ps,
        "hash"@,
    ) == 0 || count_key(ps, "label"@) == 0 || count_key(ps, "purpose"@) == 0 {
        Err(SpecParseError::MissingField)
    } else {
        match (
            lookup(ps, "common_name"@),
            lookup(ps, "id"@),
            lookup(ps, "algorithm"@),
            lookup(ps, "capabilities"@),
            lookup(ps, "domain"@),
            lookup(ps, "hash"@),
            lookup(ps, "label"@),
            lookup(ps, "purpose"@),
        ) {
            (
                Some(JsonVal::S(cn)),
                Some(JsonVal::U(id)),
                Some(JsonVal::S(alg)),
                Some(JsonVal::S(caps)),
                Some(JsonVal::S(dom)),
                Some(JsonVal::S(hash)),
                Some(JsonVal::S(label)),
                Some(JsonVal::S(purpose)),
            ) => {
                if id > hsm::MAX_ID {
                    Err(SpecParseError::IdOutOfRange)
                } else {
                    match (
                        algorithm_of_str(alg),
                        capability_of_str(caps),
                        domain_of_str(dom),
                        hash_of_str(hash),
                        purpose_of_str(purpose),
                    ) {
                        (Some(a), Some(c), Some(d), Some(h), Some(p)) => Ok(
                            OksKeySpecModel {
                                common_name: cn,
                                id: id as u16,
                                algorithm: a,
                                capabilities: c,
                                domain: d,
                                hash: h,
                                label: label,
                                purpose: p,
                            },
                        ),
                        _ => Err(SpecParseError::UnknownValue),
                    }
                }
            },
            _ => Err(SpecParseError::WrongType),
        }
    }
}

/// What a whole document denotes: a wire key request or a classified fault.
pub open spec fn spec_of_doc(s: Seq<char>) -> Result<OksKeySpecModel, SpecParseError> {
    match json::doc_members(s) {
        None => Err(SpecParseError::Syntax),
        Some(ps) => validate_members(ps),
    }
}

/// Executable twin of [`lookup`]: the index of the first member so named.
fn find_key_from(ps: &Vec<(String, JsonValue)>, key: &str, i: usize) -> (r: Option<usize>)
    requires
        i <= ps@.len(),
    ensures
        match r {
            Some(t) => i <= t < ps@.len() && lookup_from(json::pairs_view(ps@), key@, i as int)
                == Some(ps@[t as int].1@),
            None => lookup_from(json::pairs_view(ps@), key@, i as int) is None,
        },
    decreases ps@.len() - i,
{
    if i >= ps.len() {
        None
    } else if json::str_eq(ps[i].0.as_str(), key) {
        Some(i)
    } else {
        find_key_from(ps, key, i + 1)
    }
}

/// Executable twin of [`count_key`].
fn count_key_x(ps: &Vec<(String, JsonValue)>, key: &str, i: usize) -> (r: usize)
    requires
        i <= ps@.len(),
    ensures
        r == count_key_from(json::pairs_view(ps@), key@, i as int),
        r <= ps@.len() - i,
    decreases ps@.len() - i,
{
    if i >= ps.len() {
        0
    } else {
        let here: usize = if json::str_eq(ps[i].0.as_str(), key) {
            1
        } else {
            0
        };
        here + count_key_x(ps, key, i + 1)
    }
}

/// Executable twin of [`all_known_from`].
fn all_known_x(ps: &Vec<(String, JsonValue)>, i: usize) -> (r: bool)
    requires
        i <= ps@.len(),
    ensures
        r == all_known_from(json::pairs_view(ps@), i as int),
    decreases ps@.len() - i,
{
    if i >= ps.len() {
        true
    } else {
        let k = ps[i].0.as_str();
        let known = json::str_eq(k, "common_name") || json::str_eq(k, "id") || json::str_eq(
            k,
            "algorithm",
        ) || json::str_eq(k, "capabilities") || json::str_eq(k, "domain") || json::str_eq(
            k,
            "hash",
        ) || json::str_eq(k, "label") || json::str_eq(k, "purpose");
        known && all_known_x(ps, i + 1)
    }
}

/// Executable twin of [`validate_members`].
fn validate_x(ps: &Vec<(String, JsonValue)>) -> (r: Result<OksKeySpec, SpecParseError>)
    ensures
        match r {
            Ok(w) => validate_members(json::pairs_view(ps@)) == Ok::<
                OksKeySpecModel,
                SpecParseError,
            >(w@),
            Err(e) => validate_members(json::pairs_view(ps@)) == Err::<
                OksKeySpecModel,
                SpecParseError,
            >(e),
        },
{
    if !all_known_x(ps, 0) {
        return Err(SpecParseError::UnknownField);
    }
    let c_cn = count_key_x(ps, "common_name", 0);
    let c_id = count_key_x(ps, "id", 0);
    let c_alg = count_key_x(ps, "algorithm", 0);
    let c_caps = count_key_x(ps, "capabilities", 0);
    let c_dom = count_key_x(ps, "domain", 0);
    let c_hash = count_key_x(ps, "hash", 0);
    let c_label = count_key_x(ps, "label", 0);
    let c_purpose = count_key_x(ps, "purpose", 0);
    if c_cn > 1 || c_id > 1 || c_alg > 1 || c_caps > 1 || c_dom > 1 || c_hash > 1 || c_label > 1
        || c_purpose > 1 {
        return Err(SpecParseError::DuplicateField);
    }
    if c_cn == 0 || c_id == 0 || c_alg == 0 || c_caps == 0 || c_dom == 0 || c_hash == 0 || c_label
        == 0 || c_purpose == 0 {
        return Err(SpecParseError::MissingField);
    }
    let t_cn = find_key_from(ps, "common_name", 0);
    let t_id = find_key_from(ps, "id", 0);
    let t_alg = find_key_from(ps, "algorithm", 0);
    let t_caps = find_key_from(ps, "capabilities", 0);
    let t_dom = find_key_from(ps, "domain", 0);
    let t_hash = find_key_from(ps, "hash", 0);
    let t_label = find_key_from(ps, "label", 0);
    let t_purpose = find_key_from(ps, "purpose", 0);
    match (t_cn, t_id, t_alg, t_caps, t_dom, t_hash, t_label, t_purpose) {
        (
            Some(t_cn),
            Some(t_id),
            Some(t_alg),
            Some(t_caps),
            Some(t_dom),
            Some(t_hash),
            Some(t_label),
            Some(t_purpose),
        ) => {
            match (
                &ps[t_cn].1,
                &ps[t_id].1,
                &ps[t_alg].1,
                &ps[t_caps].1,
                &ps[t_dom].1,
                &ps[t_hash].1,
                &ps[t_label].1,
                &ps[t_purpose].1,
            ) {
                (
                    JsonValue::Str(cn),
                    JsonValue::Uint(id),
                    JsonValue::Str(alg),
                    JsonValue::Str(caps),
                    JsonValue::Str(dom),
                    JsonValue::Str(hash),
                    JsonValue::Str(label),
                    JsonValue::Str(purpose),
                ) => {
                    if *id > hsm::MAX_ID {
                        return Err(SpecParseError::IdOutOfRange);
                    }
                    match (
                        algorithm_of_str_x(alg.as_str()),
                        capability_of_str_x(caps.as_str()),
                        domain_of_str_x(dom.as_str()),
                        hash_of_str_x(hash.as_str()),
                        purpose_of_str_x(purpose.as_str()),
                    ) {
                        (Some(a), Some(c), Some(d), Some(h), Some(p)) => Ok(
                            OksKeySpec {
                                common_name: cn.clone(),
                                id: *id as u16,
                                algorithm: a,
                                capabilities: c,
                                domain: d,
                                hash: h,
                                label: OksLabel(label.clone()),
                                purpose: p,
                            },
                        ),
                        _ => Err(SpecParseError::UnknownValue),
                    }
                },
                _ => Err(SpecParseError::WrongType),
            }
        },
        _ => Err(SpecParseError::WrongType),
    }
}

/// The canonical declarative writing of a wire key request: its eight
/// fields, in declaration order.
pub open spec fn wire_members(w: OksKeySpecModel) -> Seq<(Seq<char>, JsonVal)> {
    seq![
        ("common_name"@, JsonVal::S(w.common_name)),
        ("id"@, JsonVal::U(w.id as u64)),
        ("algorithm"@, JsonVal::S(algorithm_str(w.algorithm))),
        ("capabilities"@, JsonVal::S(capability_str(w.capabilities))),
        ("domain"@, JsonVal::S(domain_str(w.domain))),
        ("hash"@, JsonVal::S(hash_str(w.hash))),
        ("label"@, JsonVal::S(w.label)),
        ("purpose"@, JsonVal::S(purpose_str(w.purpose))),
    ]
}

fn algorithm_str_x(a: OksAlgorithm) -> (r: &'static str)
    ensures
        r@ == algorithm_str(a),
{
    match a {
        OksAlgorithm::Rsa4096 => "Rsa4096",
        OksAlgorithm::Ecp384 => "Ecp384",
    }
}

fn capability_str_x(c: OksCapability) -> (r: &'static str)
    ensures
        r@ == capability_str(c),
{
    match c {
        OksCapability::All => "All",
    }
}

fn domain_str_x(d: OksDomain) -> (r: &'static str)
    ensures
        r@ == domain_str(d),
{
    match d {
        OksDomain::DOM1 => "DOM1",
    }
}

fn hash_str_x(h: Hash) -> (r: &'static str)
    ensures
        r@ == hash_str(h),
{
    match h {
        Hash::Sha256 => "Sha256",
        Hash::Sha384 => "Sha384",
    }
}

fn purpose_str_x(p: Purpose) -> (r: &'static str)
    ensures
        r@ == purpose_str(p),
{
    match p {
        Purpose::ProductionCodeSigningCA => "ProductionCodeSigningCA",
        Purpose::DevelopmentCodeSigningCA => "DevelopmentCodeSigningCA",
        Purpose::ProductionCodeSigning => "ProductionCodeSigning",
        Purpose::DevelopmentCodeSigning => "DevelopmentCodeSigning",
        Purpose::Identity => "Identity",
    }
}

impl OksKeySpec {
    /// Reads a declarative key request from its document text, or reports
    /// the first classified fault.
    pub fn from_str(data: &str) -> (r: Result<OksKeySpec, SpecParseError>)
        ensures
            match r {
                Ok(w) => spec_of_doc(data@) == Ok::<OksKeySpecModel, SpecParseError>(w@),
                Err(e) => spec_of_doc(data@) == Err::<OksKeySpecModel, SpecParseError>(e),
            },
    {
        match json::parse_object(data) {
            None => Err(SpecParseError::Syntax),
            Some(ps) => validate_x(&ps),
        }
    }

    /// Writes this request back as its canonical document.
    pub fn to_json(&self) -> (r: String)
        ensures
            r@ == json::ser_doc(wire_members(self@)),
    {
        let mut ps: Vec<(String, JsonValue)> = Vec::new();
        ps.push((String::from_str("common_name"), JsonValue::Str(self.common_name.clone())));
        ps.push((String::from_str("id"), JsonValue::Uint(self.id as u64)));
        ps.push(
            (String::from_str("algorithm"), JsonValue::Str(algorithm_str_x(self.algorithm).to_owned())),
        );
        ps.push(
            (
                String::from_str("capabilities"),
                JsonValue::Str(capability_str_x(self.capabilities).to_owned()),
            ),
        );
        ps.push((String::from_str("domain"), JsonValue::Str(domain_str_x(self.domain).to_owned())));
        ps.push((String::from_str("hash"), JsonValue::Str(hash_str_x(self.hash).to_owned())));
        ps.push((String::from_str("label"), JsonValue::Str(self.label.0.clone())));
        ps.push(
            (String::from_str("purpose"), JsonValue::Str(purpose_str_x(self.purpose).to_owned())),
        );
        proof {
            assert(json::pairs_view(ps@) =~= wire_members(self@));
        }
        json::write_object(&ps)
    }
}

/// Law: each enum value's written name reads back to exactly that value,
/// for every enum of the declarative form. With [`lemma_enum_names_distinct`]
/// this makes the name-to-value mapping a bijection onto the accepted names.
pub proof fn lemma_enum_names_roundtrip(
    a: OksAlgorithm,
    c: OksCapability,
    d: OksDomain,
    h: Hash,
    p: Purpose,
)
    ensures
        algorithm_of_str(algorithm_str(a)) == Some(a),
        capability_of_str(capability_str(c)) == Some(c),
        domain_of_str(domain_str(d)) == Some(d),
        hash_of_str(hash_str(h)) == Some(h),
        purpose_of_str(purpose_str(p)) == Some(p),
{
    reveal_strlit("Rsa4096");
    reveal_strlit("Ecp384");
    reveal_strlit("All");
    reveal_strlit("DOM1");
    reveal_strlit("Sha256");
    reveal_strlit("Sha384");
    reveal_strlit("ProductionCodeSigningCA");
    reveal_strlit("DevelopmentCodeSigningCA");
    reveal_strlit("ProductionCodeSigning");
    reveal_strlit("DevelopmentCodeSigning");
    reveal_strlit("Identity");
    assert("Rsa4096"@.len() == 7 && "Ecp384"@.len() == 6);
    assert("Sha256"@[3] == '2' && "Sha384"@[3] == '3');
    assert("ProductionCodeSigningCA"@.len() == 23);
    assert("DevelopmentCodeSigningCA"@.len() == 24);
    assert("ProductionCodeSigning"@.len() == 21);
    assert("DevelopmentCodeSigning"@.len() == 22);
    assert("Identity"@.len() == 8);
}

/// Law: two different enum values are never written under the same name.
pub proof fn lemma_enum_names_distinct(a1: OksAlgorithm, a2: OksAlgorithm, p1: Purpose, p2: Purpose)
    ensures
        algorithm_str(a1) == algorithm_str(a2) ==> a1 == a2,
        purpose_str(p1) == purpose_str(p2) ==> p1 == p2,
        purpose_section(p1) == purpose_section(p2) ==> p1 == p2,
{
    reveal_strlit("Rsa4096");
    reveal_strlit("Ecp384");
    reveal_strlit("ProductionCodeSigningCA");
    reveal_strlit("DevelopmentCodeSigningCA");
    reveal_strlit("ProductionCodeSigning");
    reveal_strlit("DevelopmentCodeSigning");
    reveal_strlit("Identity");
    reveal_strlit("v3_code_signing_prod_ca");
    reveal_strlit("v3_code_signing_dev_ca");
    reveal_strlit("v3_code_signing_prod");
    reveal_strlit("v3_code_signing_dev");
    reveal_strlit("v3_identity");
    assert("Rsa4096"@.len() == 7 && "Ecp384"@.len() == 6);
    assert("ProductionCodeSigningCA"@.len() == 23);
    assert("DevelopmentCodeSigningCA"@.len() == 24);
    assert("ProductionCodeSigning"@.len() == 21);
    assert("DevelopmentCodeSigning"@.len() == 22);
    assert("Identity"@.len() == 8);
    assert("v3_code_signing_prod_ca"@.len() == 23);
    assert("v3_code_signing_dev_ca"@.len() == 22);
    assert("v3_code_signing_prod"@.len() == 20);
    assert("v3_code_signing_dev"@.len() == 19);
    assert("v3_identity"@.len() == 11);
}

/// Law: the wire-to-device enum mappings are total and injective: every
/// accepted wire value maps to exactly one device-side value, and no two
/// wire values collapse into one.
pub proof fn lemma_wire_mappings_injective(a1: OksAlgorithm, a2: OksAlgorithm)
    ensures
        algorithm_to_hsm(a1) == algorithm_to_hsm(a2) ==> a1 == a2,
{
}

/// A wire request whose text fields the writer can put inside string
/// literals: no control characters (quotes and backslashes are escaped).
pub open spec fn wire_wf(w: OksKeySpecModel) -> bool {
    json::text_ok(w.common_name) && json::text_ok(w.label)
}

/// A key that no member from position `i` on bears is neither counted nor
/// found.
proof fn lemma_key_absent(ps: Seq<(Seq<char>, JsonVal)>, key: Seq<char>, i: int)
    requires
        0 <= i <= ps.len(),
        forall|t: int| i <= t < ps.len() ==> #[trigger] ps[t].0 != key,
    ensures
        count_key_from(ps, key, i) == 0,
        lookup_from(ps, key, i) is None,
    decreases ps.len() - i,
{
    if i < ps.len() {
        lemma_key_absent(ps, key, i + 1);
    }
}

/// A key that exactly one member from position `i` on bears is counted
/// once, and found with that member's value.
proof fn lemma_key_once(ps: Seq<(Seq<char>, JsonVal)>, key: Seq<char>, i: int, k: int)
    requires
        0 <= i <= k < ps.len(),
        ps[k].0 == key,
        forall|t: int| i <= t < ps.len() && t != k ==> #[trigger] ps[t].0 != key,
    ensures
        count_key_from(ps, key, i) == 1,
        lookup_from(ps, key, i) == Some(ps[k].1),
    decreases k - i,
{
    if i < k {
        lemma_key_once(ps, key, i + 1, k);
    } else {
        lemma_key_absent(ps, key, k + 1);
    }
}

/// A list whose members all bear known names is wholly known.
proof fn lemma_all_known(ps: Seq<(Seq<char>, JsonVal)>, i: int)
    requires
        0 <= i <= ps.len(),
        forall|t: int| i <= t < ps.len() ==> is_known_key(#[trigger] ps[t].0),
    ensures
        all_known_from(ps, i),
    decreases ps.len() - i,
{
    if i < ps.len() {
        lemma_all_known(ps, i + 1);
    }
}

/// Law: writing a wire key request as its canonical document and reading
/// that document back yields exactly the same request. Together with the
/// reader's and converter's contracts this is the round trip of the
/// declarative form, for every request whose text fields fit inside string
/// literals.
pub proof fn lemma_keyspec_doc_roundtrip(w: OksKeySpecModel)
    requires
        wire_wf(w),
    ensures
        spec_of_doc(json::ser_doc(wire_members(w))) == Ok::<OksKeySpecModel, SpecParseError>(w),
{
    let ps = wire_members(w);
    reveal_strlit("common_name");
    reveal_strlit("id");
    reveal_strlit("algorithm");
    reveal_strlit("capabilities");
    reveal_strlit("domain");
    reveal_strlit("hash");
    reveal_strlit("label");
    reveal_strlit("purpose");
    reveal_strlit("Rsa4096");
    reveal_strlit("Ecp384");
    reveal_strlit("All");
    reveal_strlit("DOM1");
    reveal_strlit("Sha256");
    reveal_strlit("Sha384");
    reveal_strlit("ProductionCodeSigningCA");
    reveal_strlit("DevelopmentCodeSigningCA");
    reveal_strlit("ProductionCodeSigning");
    reveal_strlit("DevelopmentCodeSigning");
    reveal_strlit("Identity");
    assert("common_name"@.len() == 11);
    assert("id"@.len() == 2);
    assert("algorithm"@.len() == 9);
    assert("capabilities"@.len() == 12);
    assert("domain"@.len() == 6);
    assert("hash"@.len() == 4);
    assert("label"@.len() == 5);
    assert("purpose"@.len() == 7);
    assert(json::members_wf(ps)) by {
        assert(json::text_ok("common_name"@));
        assert(json::text_ok("id"@));
        assert(json::text_ok("algorithm"@));
        assert(json::text_ok("capabilities"@));
        assert(json::text_ok("domain"@));
        assert(json::text_ok("hash"@));
        assert(json::text_ok("label"@));
        assert(json::text_ok("purpose"@));
        assert(json::text_ok(algorithm_str(w.algorithm)));
        assert(json::text_ok(capability_str(w.capabilities)));
        assert(json::text_ok(domain_str(w.domain)));
        assert(json::text_ok(hash_str(w.hash)));
        assert(json::text_ok(purpose_str(w.purpose)));
        assert(forall|k: int| 0 <= k < 8 ==> json::member_wf(#[trigger] ps[k]));
    }
    json::lemma_doc_roundtrip(ps);
    lemma_key_once(ps, "common_name"@, 0, 0);
    lemma_key_once(ps, "id"@, 0, 1);
    lemma_key_once(ps, "algorithm"@, 0, 2);
    lemma_key_once(ps, "capabilities"@, 0, 3);
    lemma_key_once(ps, "domain"@, 0, 4);
    lemma_key_once(ps, "hash"@, 0, 5);
    lemma_key_once(ps, "label"@, 0, 6);
    lemma_key_once(ps, "purpose"@, 0, 7);
    lemma_all_known(ps, 0);
    lemma_enum_names_roundtrip(w.algorithm, w.capabilities, w.domain, w.hash, w.purpose);
    assert(validate_members(ps) == Ok::<OksKeySpecModel, SpecParseError>(w));
}

/// Law: validation never reaches past an unrecognized value: whenever a
/// document reads as a wire request, every field of the request is the
/// exact denotation of the document's own member — the enum members hold
/// precisely the written names of the request's values, and the identifier
/// fits the device's identifier space. Contrapositively, a document whose
/// algorithm (or any other enum member) holds an unrecognized name, such
/// as an unsupported key size, yields a classified error and no request at
/// all, so nothing exists for a ceremony to hand to the device.
pub proof fn lemma_no_request_from_unknown_value(s: Seq<char>, w: OksKeySpecModel)
    requires
        spec_of_doc(s) == Ok::<OksKeySpecModel, SpecParseError>(w),
    ensures
        json::doc_members(s) is Some,
        ({
            let ps = json::doc_members(s)->Some_0;
            &&& lookup(ps, "common_name"@) == Some(JsonVal::S(w.common_name))
            &&& lookup(ps, "id"@) == Some(JsonVal::U(w.id as u64))
            &&& lookup(ps, "algorithm"@) == Some(JsonVal::S(algorithm_str(w.algorithm)))
            &&& lookup(ps, "capabilities"@) == Some(JsonVal::S(capability_str(w.capabilities)))
            &&& lookup(ps, "domain"@) == Some(JsonVal::S(domain_str(w.domain)))
            &&& lookup(ps, "hash"@) == Some(JsonVal::S(hash_str(w.hash)))
            &&& lookup(ps, "label"@) == Some(JsonVal::S(w.label))
            &&& lookup(ps, "purpose"@) == Some(JsonVal::S(purpose_str(w.purpose)))
        }),
{
    let ps = json::doc_members(s)->Some_0;
    assert(validate_members(ps) == Ok::<OksKeySpecModel, SpecParseError>(w));
}

/// The device-side value each wire algorithm denotes.
pub open spec fn algorithm_to_hsm(a: OksAlgorithm) -> hsm::Algorithm {
    match a {
        OksAlgorithm::Rsa4096 => hsm::Algorithm::Rsa4096,
        OksAlgorithm::Ecp384 => hsm::Algorithm::EcP384,
    }
}

/// The device-side value each wire domain denotes.
pub open spec fn domain_to_hsm(d: OksDomain) -> hsm::Domain {
    match d {
        OksDomain::DOM1 => hsm::Domain::DOM1,
    }
}

/// The device-side value each wire capability set denotes.
pub open spec fn capability_to_hsm(c: OksCapability) -> hsm::Capability {
    match c {
        OksCapability::All => hsm::Capability::All,
    }
}

impl From<OksAlgorithm> for hsm::Algorithm {
    fn from(val: OksAlgorithm) -> (r: hsm::Algorithm) {
        match val {
            OksAlgorithm::Rsa4096 => hsm::Algorithm::Rsa4096,
            OksAlgorithm::Ecp384 => hsm::Algorithm::EcP384,
        }
    }
}

impl vstd::std_specs::convert::FromSpecImpl<OksAlgorithm> for hsm::Algorithm {
    open spec fn obeys_from_spec() -> bool {
        true
    }

    open spec fn from_spec(v: OksAlgorithm) -> hsm::Algorithm {
        algorithm_to_hsm(v)
    }
}

impl From<OksDomain> for hsm::Domain {
    fn from(val: OksDomain) -> (r: hsm::Domain) {
        match val {
            OksDomain::DOM1 => hsm::Domain::DOM1,
        }
    }
}

impl vstd::std_specs::convert::FromSpecImpl<OksDomain> for hsm::Domain {
    open spec fn obeys_from_spec() -> bool {
        true
    }

    open spec fn from_spec(v: OksDomain) -> hsm::Domain {
        domain_to_hsm(v)
    }
}

impl From<OksCapability> for hsm::Capability {
    fn from(val: OksCapability) -> (r: hsm::Capability) {
        match val {
            OksCapability::All => hsm::Capability::All,
        }
    }
}

impl vstd::std_specs::convert::FromSpecImpl<OksCapability> for hsm::Capability {
    open spec fn obeys_from_spec() -> bool {
        true
    }

    open spec fn from_spec(v: OksCapability) -> hsm::Capability {
        capability_to_hsm(v)
    }
}

impl OksLabel {
    /// How many bytes the label takes in the device's encoding.
    pub open spec fn spec_byte_len(&self) -> nat {
        vstd::utf8::encode_utf8(self.0@).len()
    }

    /// Converts the wire label to the device-side form; fails if it is too
    /// long for the device's label encoding.
    pub fn into_label(&self) -> (r: Result<hsm::Label, ConfigError>)
        ensures
            self.spec_byte_len() <= hsm::LABEL_SIZE ==> (r matches Ok(l) && l.wf() && l@
                == self.0@),
            self.spec_byte_len() > hsm::LABEL_SIZE ==> r === Err(ConfigError::BadLabel),
    {
        match hsm::Label::from_text(self.0.as_str()) {
            Ok(l) => Ok(l),
            Err(_) => Err(ConfigError::BadLabel),
        }
    }
}

/// A validated, fully typed key request: every field carries the
/// device-side value it will be submitted with.
#[derive(Debug, Clone)]
pub struct KeySpec {
    pub common_name: String,
    pub id: u16,
    pub algorithm: hsm::Algorithm,
    pub capabilities: hsm::Capability,
    pub domain: hsm::Domain,
    pub hash: Hash,
    pub label: hsm::Label,
    pub purpose: Purpose,
}

/// The mathematical form of a validated key request.
pub struct KeySpecModel {
    pub common_name: Seq<char>,
    pub id: u16,
    pub algorithm: hsm::Algorithm,
    pub capabilities: hsm::Capability,
    pub domain: hsm::Domain,
    pub hash: Hash,
    pub label: Seq<char>,
    pub purpose: Purpose,
}

impl View for KeySpec {
    type V = KeySpecModel;

    open spec fn view(&self) -> KeySpecModel {
        KeySpecModel {
            common_name: self.common_name@,
            id: self.id,
            algorithm: self.algorithm,
            capabilities: self.capabilities,
            domain: self.domain,
            hash: self.hash,
            label: self.label@,
            purpose: self.purpose,
        }
    }
}

impl KeySpec {
    /// A validated request is well formed when its label fits the device's
    /// label encoding.
    pub open spec fn wf(&self) -> bool {
        self.label.wf()
    }
}

/// The validated form a wire request converts to, when its label fits.
pub open spec fn convert_wire(w: OksKeySpecModel) -> KeySpecModel {
    KeySpecModel {
        common_name: w.common_name,
        id: w.id,
        algorithm: algorithm_to_hsm(w.algorithm),
        capabilities: capability_to_hsm(w.capabilities),
        domain: domain_to_hsm(w.domain),
        hash: w.hash,
        label: w.label,
        purpose: w.purpose,
    }
}

/// What converting a wire request yields: its validated form, or a label
/// fault when the label is too long for the device's encoding.
pub open spec fn convert_result(w: OksKeySpecModel) -> Result<KeySpecModel, ConfigError> {
    if vstd::utf8::encode_utf8(w.label).len() <= hsm::LABEL_SIZE {
        Ok(convert_wire(w))
    } else {
        Err(ConfigError::BadLabel)
    }
}

/// What a whole document denotes once validated and converted.
pub open spec fn keyspec_of_doc(s: Seq<char>) -> Result<KeySpecModel, ConfigError> {
    match spec_of_doc(s) {
        Err(e) => Err(ConfigError::BadKeySpec { e }),
        Ok(w) => convert_result(w),
    }
}

impl KeySpec {
    /// Converts a wire request into its validated form. Every enum field
    /// maps to exactly one device-side value; only the label can fail.
    pub fn try_from(spec: OksKeySpec) -> (r: Result<KeySpec, ConfigError>)
        ensures
            match r {
                Ok(k) => convert_result(spec@) == Ok::<KeySpecModel, ConfigError>(k@) && k.wf(),
                Err(e) => convert_result(spec@) == Err::<KeySpecModel, ConfigError>(e),
            },
    {
        let label = match spec.label.into_label() {
            Ok(l) => l,
            Err(e) => {
                return Err(e);
            },
        };
        Ok(
            KeySpec {
                common_name: spec.common_name,
                id: spec.id,
                algorithm: hsm::Algorithm::from(spec.algorithm),
                capabilities: hsm::Capability::from(spec.capabilities),
                domain: hsm::Domain::from(spec.domain),
                hash: spec.hash,
                label,
                purpose: spec.purpose,
            },
        )
    }

    /// Reads a key-specification document into its validated form, or
    /// reports the first classified fault.
    pub fn from_str(data: &str) -> (r: Result<KeySpec, ConfigError>)
        ensures
            match r {
                Ok(k) => keyspec_of_doc(data@) == Ok::<KeySpecModel, ConfigError>(k@) && k.wf(),
                Err(e) => keyspec_of_doc(data@) == Err::<KeySpecModel, ConfigError>(e),
            },
    {
        match OksKeySpec::from_str(data) {
            Err(e) => Err(ConfigError::BadKeySpec { e }),
            Ok(w) => KeySpec::try_from(w),
        }
    }
}

} // verus!
