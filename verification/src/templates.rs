//! Template kinds, the containers that templates are made of, and the rules
//! that tie a template's JSON object to its kind.

use vstd::prelude::*;

use crate::json::{json_str_member, str_member};
use crate::random::{is_alphanumeric, random_password, PASSWORD_LENGTH};
use crate::text::str_eq;
use crate::validate::{length_within, no_failures, note_failure, outcome, record_failure, within, ValidationErrors};

verus! {

/// The kind of a template. In a template's JSON object the kind stands as the
/// string member `base`, spelled as the variant's name.
#[derive(Clone, Copy, Debug, PartialEq, Eq, Structural)]
pub enum TemplateBase {
    AlpineLinux,
    ArchLinux,
    Debian,
    GoldbootLinux,
    MacOs,
    PopOs,
    SteamDeck,
    SteamOs,
    Ubuntu,
    Windows10,
}

/// Why a template name or a template object was refused.
#[derive(Clone, Copy, Debug, PartialEq, Eq, Structural)]
pub enum TemplateError {
    /// The name names no template this conversion accepts.
    UnknownTemplateName,
}

impl TemplateError {
    /// The message that reports this error.
    pub fn message(&self) -> (r: String)
        ensures
            r@ == "Unknown template name"@,
    {
        match self {
            TemplateError::UnknownTemplateName => "Unknown template name".to_owned(),
        }
    }
}

impl TemplateBase {
    /// The name under which the kind is written.
    pub open spec fn base_name(self) -> Seq<char> {
        match self {
            TemplateBase::AlpineLinux => "AlpineLinux"@,
            TemplateBase::ArchLinux => "ArchLinux"@,
            TemplateBase::Debian => "Debian"@,
            TemplateBase::GoldbootLinux => "GoldbootLinux"@,
            TemplateBase::MacOs => "MacOs"@,
            TemplateBase::PopOs => "PopOs"@,
            TemplateBase::SteamDeck => "SteamDeck"@,
            TemplateBase::SteamOs => "SteamOs"@,
            TemplateBase::Ubuntu => "Ubuntu"@,
            TemplateBase::Windows10 => "Windows10"@,
        }
    }

    /// The kind written as `s`, if any.
    pub open spec fn base_named(s: Seq<char>) -> Option<TemplateBase> {
        if s == "AlpineLinux"@ {
            Some(TemplateBase::AlpineLinux)
        } else if s == "ArchLinux"@ {
            Some(TemplateBase::ArchLinux)
        } else if s == "Debian"@ {
            Some(TemplateBase::Debian)
        } else if s == "GoldbootLinux"@ {
            Some(TemplateBase::GoldbootLinux)
        } else if s == "MacOs"@ {
            Some(TemplateBase::MacOs)
        } else if s == "PopOs"@ {
            Some(TemplateBase::PopOs)
        } else if s == "SteamDeck"@ {
            Some(TemplateBase::SteamDeck)
        } else if s == "SteamOs"@ {
            Some(TemplateBase::SteamOs)
        } else if s == "Ubuntu"@ {
            Some(TemplateBase::Ubuntu)
        } else if s == "Windows10"@ {
            Some(TemplateBase::Windows10)
        } else {
            None
        }
    }

    /// The name under which this kind is written.
    pub fn name(&self) -> (r: String)
        ensures
            r@ == self.base_name(),
    {
        match self {
            TemplateBase::AlpineLinux => "AlpineLinux".to_owned(),
            TemplateBase::ArchLinux => "ArchLinux".to_owned(),
            TemplateBase::Debian => "Debian".to_owned(),
            TemplateBase::GoldbootLinux => "GoldbootLinux".to_owned(),
            TemplateBase::MacOs => "MacOs".to_owned(),
            TemplateBase::PopOs => "PopOs".to_owned(),
            TemplateBase::SteamDeck => "SteamDeck".to_owned(),
            TemplateBase::SteamOs => "SteamOs".to_owned(),
            TemplateBase::Ubuntu => "Ubuntu".to_owned(),
            TemplateBase::Windows10 => "Windows10".to_owned(),
        }
    }

    /// The kind written as `s`, or `None` where `s` names no kind.
    pub fn from_name(s: &str) -> (r: Option<TemplateBase>)
        ensures
            r == Self::base_named(s@),
    {
        if str_eq(s, "AlpineLinux") {
            Some(TemplateBase::AlpineLinux)
        } else if str_eq(s, "ArchLinux") {
            Some(TemplateBase::ArchLinux)
        } else if str_eq(s, "Debian") {
            Some(TemplateBase::Debian)
        } else if str_eq(s, "GoldbootLinux") {
            Some(TemplateBase::GoldbootLinux)
        } else if str_eq(s, "MacOs") {
            Some(TemplateBase::MacOs)
        } else if str_eq(s, "PopOs") {
            Some(TemplateBase::PopOs)
        } else if str_eq(s, "SteamDeck") {
            Some(TemplateBase::SteamDeck)
        } else if str_eq(s, "SteamOs") {
            Some(TemplateBase::SteamOs)
        } else if str_eq(s, "Ubuntu") {
            Some(TemplateBase::Ubuntu)
        } else if str_eq(s, "Windows10") {
            Some(TemplateBase::Windows10)
        } else {
            None
        }
    }

    /// Converts a template name; this conversion knows `ArchLinux` alone.
    pub fn try_from(s: String) -> (r: Result<TemplateBase, TemplateError>)
        ensures
            s@ == "ArchLinux"@ ==> r == Ok::<TemplateBase, TemplateError>(TemplateBase::ArchLinux),
            s@ != "ArchLinux"@ ==> r == Err::<TemplateBase, TemplateError>(TemplateError::UnknownTemplateName),
    {
        if str_eq(s.as_str(), "ArchLinux") {
            Ok(TemplateBase::ArchLinux)
        } else {
            Err(TemplateError::UnknownTemplateName)
        }
    }
}

impl Default for TemplateBase {
    fn default() -> (r: Self)
        ensures
            r == TemplateBase::AlpineLinux,
    {
        TemplateBase::AlpineLinux
    }
}

/// Represents a "base configuration" that users can modify and use to build
/// images.
pub trait Template {
    /// Whether the template can be combined with others: yes, unless the
    /// template says otherwise.
    fn is_multiboot(&self) -> (r: bool)
        default_ensures
            r,
    {
        true
    }

    /// The settings that every template has.
    fn general(&self) -> GeneralContainer;
}

/// The installation medium of a template.
#[derive(Clone, Debug, PartialEq, Eq)]
pub struct IsoContainer {
    /// The installation media URL
    pub url: String,
    /// A hash of the installation media
    pub checksum: String,
}

/// The number of bytes that `ubyte` reads from `text` as a byte unit (`1GiB`,
/// `256 kB`, `0.5MB`, ...), or `None` where it refuses the text.
pub uninterp spec fn byte_unit_value(text: Seq<char>) -> Option<u64>;

/// Parses `text` with `FromStr` of `ubyte::ByteUnit` and takes the value with
/// `ByteUnit::as_u64`. The grammar and the rounding are ubyte's: the contract
/// names the outcome `byte_unit_value` of the text and claims nothing more.
#[verifier::external_body]
fn parse_byte_unit(text: &str) -> (r: Option<u64>)
    ensures
        r == byte_unit_value(text@),
{
    match text.parse::<ubyte::ByteUnit>() {
        Ok(unit) => Some(unit.as_u64()),
        Err(_) => None,
    }
}

/// The settings that every template has.
#[derive(Clone, Debug, PartialEq, Eq)]
pub struct GeneralContainer {
    pub base: TemplateBase,
    pub qemuargs: Option<Vec<String>>,
    pub storage_size: String,
}

impl Default for GeneralContainer {
    fn default() -> (r: Self)
        ensures
            r.base == TemplateBase::AlpineLinux,
            r.qemuargs is None,
            r.storage_size@.len() == 0,
    {
        GeneralContainer { base: TemplateBase::default(), qemuargs: None, storage_size: String::new() }
    }
}

impl GeneralContainer {
    /// The storage size in bytes. The size must be one that `ubyte` reads.
    pub fn storage_size_bytes(&self) -> (r: u64)
        requires
            byte_unit_value(self.storage_size@) is Some,
        ensures
            byte_unit_value(self.storage_size@) == Some(r),
    {
        match parse_byte_unit(self.storage_size.as_str()) {
            Some(bytes) => bytes,
            None => 0,
        }
    }

    /// The storage size in bytes, or `None` where `ubyte` cannot read it.
    pub fn checked_storage_size_bytes(&self) -> (r: Option<u64>)
        ensures
            r == byte_unit_value(self.storage_size@),
    {
        match parse_byte_unit(self.storage_size.as_str()) {
            Some(_) => Some(self.storage_size_bytes()),
            None => None,
        }
    }
}

/// The root password of a template.
#[derive(Clone, Debug, PartialEq, Eq)]
pub struct RootPasswordContainer {
    pub root_password: String,
}

impl RootPasswordContainer {
    /// The names of the fields that break their length bound.
    pub open spec fn invalid_fields(self) -> Seq<Seq<char>> {
        note_failure(Seq::empty(), !within(self.root_password@.len(), None, Some(64)), "root_password"@)
    }

    /// Checks that the root password is at most 64 characters long.
    pub fn validate(&self) -> (r: Result<(), ValidationErrors>)
        ensures
            r is Ok <==> self.invalid_fields().len() == 0,
            r matches Err(e) ==> e.names() == self.invalid_fields(),
    {
        let mut fields = no_failures();
        let ok = length_within(self.root_password.as_str(), None, Some(64));
        record_failure(&mut fields, !ok, "root_password");
        outcome(fields)
    }
}

impl Default for RootPasswordContainer {
    /// A fresh random root password.
    fn default() -> (r: Self)
        ensures
            r.root_password@.len() == PASSWORD_LENGTH,
            forall|i: int| 0 <= i < r.root_password@.len() ==> is_alphanumeric(#[trigger] r.root_password@[i]),
            r.invalid_fields().len() == 0,
    {
        RootPasswordContainer { root_password: random_password() }
    }
}

/// Encryption of the root partition.
#[derive(Clone, Debug, PartialEq, Eq)]
pub struct LuksContainer {
    /// The LUKS container passphrase
    pub luks_passphrase: String,
    /// Whether the LUKS passphrase will be enrolled in a TPM
    pub tpm: bool,
}

/// The kind of a provisioner, as its `type` member names it.
#[derive(Clone, Copy, Debug, PartialEq, Eq, Structural)]
pub enum ProvisionerKind {
    Ansible,
    Shell,
    Script,
    /// A type that provisioning passes over.
    Other,
}

/// The kind named by the type `t`.
pub open spec fn provisioner_kind_named(t: Seq<char>) -> ProvisionerKind {
    if t == "ansible"@ {
        ProvisionerKind::Ansible
    } else if t == "shell"@ {
        ProvisionerKind::Shell
    } else if t == "script"@ {
        ProvisionerKind::Script
    } else {
        ProvisionerKind::Other
    }
}

/// The kind named by the type `t`.
pub fn provisioner_kind(t: &str) -> (r: ProvisionerKind)
    ensures
        r == provisioner_kind_named(t@),
{
    if str_eq(t, "ansible") {
        ProvisionerKind::Ansible
    } else if str_eq(t, "shell") {
        ProvisionerKind::Shell
    } else if str_eq(t, "script") {
        ProvisionerKind::Script
    } else {
        ProvisionerKind::Other
    }
}

/// The kind of the provisioner object `text`, where it names its type as a
/// string.
pub open spec fn provisioner_kind_of_text(text: Seq<char>) -> Option<ProvisionerKind> {
    match json_str_member(text, "type"@) {
        Some(t) => Some(provisioner_kind_named(t)),
        None => None,
    }
}

/// The kind of the provisioner object `text`, or `None` where it does not
/// name its type as a string.
pub fn provisioner_kind_of(text: &str) -> (r: Option<ProvisionerKind>)
    ensures
        r == provisioner_kind_of_text(text@),
{
    match str_member(text, "type") {
        Some(t) => Some(provisioner_kind(t.as_str())),
        None => None,
    }
}

/// What provisioning does with one provisioner object.
#[derive(Clone, Copy, Debug, PartialEq, Eq, Structural)]
pub enum ProvisionerDecision {
    /// Run the provisioner, of this kind.
    Run(ProvisionerKind),
    /// Pass over it: its type is none that provisioning knows.
    Skip,
    /// The object names no type: provisioning cannot go on.
    MissingType,
    /// There is no object here: provisioning is over.
    Done,
}

/// The provisioners of a template, each a JSON object held as text.
#[derive(Clone, Debug, PartialEq, Eq)]
pub struct ProvisionersContainer {
    pub provisioners: Option<Vec<String>>,
}

impl Default for ProvisionersContainer {
    fn default() -> (r: Self)
        ensures
            r.provisioners is None,
    {
        ProvisionersContainer { provisioners: None }
    }
}

impl ProvisionersContainer {
    /// The provisioner objects, none where the list is absent.
    pub open spec fn entries(self) -> Seq<String> {
        match self.provisioners {
            Some(v) => v@,
            None => Seq::empty(),
        }
    }

    /// Whether every provisioner object names its type as a string.
    pub open spec fn types_present(self) -> bool {
        forall|i: int| 0 <= i < self.entries().len() ==> (#[trigger] json_str_member(self.entries()[i]@, "type"@)) is Some
    }

    /// The kind of the provisioner object at `i`.
    pub open spec fn kind_at(self, i: int) -> ProvisionerKind {
        provisioner_kind_named(json_str_member(self.entries()[i]@, "type"@)->0)
    }

    /// What provisioning does at position `i`: nothing more past the last
    /// object; stop on an object that names no type; pass over a provisioner
    /// of another type; else run it.
    pub open spec fn decision(self, i: int) -> ProvisionerDecision {
        if i >= self.entries().len() {
            ProvisionerDecision::Done
        } else {
            match provisioner_kind_of_text(self.entries()[i]@) {
                None => ProvisionerDecision::MissingType,
                Some(ProvisionerKind::Other) => ProvisionerDecision::Skip,
                Some(k) => ProvisionerDecision::Run(k),
            }
        }
    }

    /// What provisioning does at position `i`, as `decision` says.
    pub fn decision_at(&self, i: usize) -> (r: ProvisionerDecision)
        ensures
            r == self.decision(i as int),
    {
        match &self.provisioners {
            Some(provisioners) => {
                if i >= provisioners.len() {
                    ProvisionerDecision::Done
                } else {
                    match provisioner_kind_of(provisioners[i].as_str()) {
                        None => ProvisionerDecision::MissingType,
                        Some(ProvisionerKind::Other) => ProvisionerDecision::Skip,
                        Some(k) => ProvisionerDecision::Run(k),
                    }
                }
            },
            None => ProvisionerDecision::Done,
        }
    }

    /// The kind of each provisioner, in order; each object must name its type.
    /// Objects of kind `Other` are passed over when provisioning.
    pub fn plan(&self) -> (r: Vec<ProvisionerKind>)
        requires
            self.types_present(),
        ensures
            r@.len() == self.entries().len(),
            forall|i: int| 0 <= i < r@.len() ==> r@[i] == self.kind_at(i),
    {
        let mut r: Vec<ProvisionerKind> = Vec::new();
        if let Some(provisioners) = &self.provisioners {
            let mut i: usize = 0;
            while i < provisioners.len()
                invariant
                    self.provisioners == Some(*provisioners),
                    self.types_present(),
                    i <= provisioners@.len(),
                    r@.len() == i,
                    forall|k: int| 0 <= k < i ==> r@[k] == self.kind_at(k),
                decreases provisioners@.len() - i,
            {
                assert(json_str_member(self.entries()[i as int]@, "type"@) is Some);
                let kind = match str_member(provisioners[i].as_str(), "type") {
                    Some(t) => provisioner_kind(t.as_str()),
                    None => ProvisionerKind::Other,
                };
                r.push(kind);
                i = i + 1;
            }
        }
        r
    }

    /// The kind of each provisioner, or `None` where some object does not
    /// name its type as a string.
    pub fn checked_plan(&self) -> (r: Option<Vec<ProvisionerKind>>)
        ensures
            r is Some <==> self.types_present(),
            r matches Some(v) ==> v@.len() == self.entries().len() && forall|i: int|
                0 <= i < v@.len() ==> v@[i] == self.kind_at(i),
    {
        if let Some(provisioners) = &self.provisioners {
            let mut i: usize = 0;
            while i < provisioners.len()
                invariant
                    self.provisioners == Some(*provisioners),
                    i <= provisioners@.len(),
                    forall|k: int| 0 <= k < i ==> (#[trigger] json_str_member(self.entries()[k]@, "type"@)) is Some,
                decreases provisioners@.len() - i,
            {
                if str_member(provisioners[i].as_str(), "type").is_none() {
                    return None;
                }
                i = i + 1;
            }
        }
        Some(self.plan())
    }
}

/// The kind that the JSON object `text` names in its `base` member.
pub open spec fn template_base_of(text: Seq<char>) -> Option<TemplateBase> {
    match json_str_member(text, "base"@) {
        Some(s) => TemplateBase::base_named(s),
        None => None,
    }
}

/// The kind that the JSON object `text` names in its `base` member, or `None`
/// where it names none.
pub fn template_base(text: &str) -> (r: Option<TemplateBase>)
    ensures
        r == template_base_of(text@),
{
    match str_member(text, "base") {
        Some(s) => TemplateBase::from_name(s.as_str()),
        None => None,
    }
}

/// Each kind is written under a name of its own, and that name reads back as
/// the same kind: `base_named` undoes `base_name`, and no other name gives it.
pub proof fn lemma_base_name_round_trip(b: TemplateBase, s: Seq<char>)
    ensures
        TemplateBase::base_named(b.base_name()) == Some(b),
        TemplateBase::base_named(s) == Some(b) ==> s == b.base_name(),
{
    reveal_strlit("AlpineLinux");
    reveal_strlit("ArchLinux");
    reveal_strlit("Debian");
    reveal_strlit("GoldbootLinux");
    reveal_strlit("MacOs");
    reveal_strlit("PopOs");
    reveal_strlit("SteamDeck");
    reveal_strlit("SteamOs");
    reveal_strlit("Ubuntu");
    reveal_strlit("Windows10");
    assert("AlpineLinux"@.len() == 11);
    assert("ArchLinux"@.len() == 9);
    assert("Debian"@.len() == 6);
    assert("GoldbootLinux"@.len() == 13);
    assert("MacOs"@.len() == 5);
    assert("PopOs"@.len() == 5);
    assert("SteamDeck"@.len() == 9);
    assert("SteamOs"@.len() == 7);
    assert("Ubuntu"@.len() == 6);
    assert("Windows10"@.len() == 9);
    assert("ArchLinux"@[0] != "SteamDeck"@[0]);
    assert("ArchLinux"@[0] != "Windows10"@[0]);
    assert("SteamDeck"@[0] != "Windows10"@[0]);
    assert("Debian"@[0] != "Ubuntu"@[0]);
    assert("MacOs"@[0] != "PopOs"@[0]);
    match b {
        TemplateBase::AlpineLinux => {},
        TemplateBase::ArchLinux => {},
        TemplateBase::Debian => {},
        TemplateBase::GoldbootLinux => {},
        TemplateBase::MacOs => {},
        TemplateBase::PopOs => {},
        TemplateBase::SteamDeck => {},
        TemplateBase::SteamOs => {},
        TemplateBase::Ubuntu => {},
        TemplateBase::Windows10 => {},
    }
}

/// Each kind is written as its own variant's name: `AlpineLinux` as
/// "AlpineLinux", `SteamDeck` as "SteamDeck", and so on for every kind, and
/// each of these names reads back as that kind.
pub proof fn lemma_kind_spellings()
    ensures
        TemplateBase::AlpineLinux.base_name() == "AlpineLinux"@,
        TemplateBase::ArchLinux.base_name() == "ArchLinux"@,
        TemplateBase::Debian.base_name() == "Debian"@,
        TemplateBase::GoldbootLinux.base_name() == "GoldbootLinux"@,
        TemplateBase::MacOs.base_name() == "MacOs"@,
        TemplateBase::PopOs.base_name() == "PopOs"@,
        TemplateBase::SteamDeck.base_name() == "SteamDeck"@,
        TemplateBase::SteamOs.base_name() == "SteamOs"@,
        TemplateBase::Ubuntu.base_name() == "Ubuntu"@,
        TemplateBase::Windows10.base_name() == "Windows10"@,
        TemplateBase::base_named("AlpineLinux"@) == Some(TemplateBase::AlpineLinux),
        TemplateBase::base_named("ArchLinux"@) == Some(TemplateBase::ArchLinux),
        TemplateBase::base_named("Debian"@) == Some(TemplateBase::Debian),
        TemplateBase::base_named("GoldbootLinux"@) == Some(TemplateBase::GoldbootLinux),
        TemplateBase::base_named("MacOs"@) == Some(TemplateBase::MacOs),
        TemplateBase::base_named("PopOs"@) == Some(TemplateBase::PopOs),
        TemplateBase::base_named("SteamDeck"@) == Some(TemplateBase::SteamDeck),
        TemplateBase::base_named("SteamOs"@) == Some(TemplateBase::SteamOs),
        TemplateBase::base_named("Ubuntu"@) == Some(TemplateBase::Ubuntu),
        TemplateBase::base_named("Windows10"@) == Some(TemplateBase::Windows10),
{
    lemma_base_name_round_trip(TemplateBase::AlpineLinux, "AlpineLinux"@);
    lemma_base_name_round_trip(TemplateBase::ArchLinux, "ArchLinux"@);
    lemma_base_name_round_trip(TemplateBase::Debian, "Debian"@);
    lemma_base_name_round_trip(TemplateBase::GoldbootLinux, "GoldbootLinux"@);
    lemma_base_name_round_trip(TemplateBase::MacOs, "MacOs"@);
    lemma_base_name_round_trip(TemplateBase::PopOs, "PopOs"@);
    lemma_base_name_round_trip(TemplateBase::SteamDeck, "SteamDeck"@);
    lemma_base_name_round_trip(TemplateBase::SteamOs, "SteamOs"@);
    lemma_base_name_round_trip(TemplateBase::Ubuntu, "Ubuntu"@);
    lemma_base_name_round_trip(TemplateBase::Windows10, "Windows10"@);
}

/// The types "ansible", "shell" and "script" name the Ansible, shell and
/// script provisioners; every other type names none that provisioning runs.
pub proof fn lemma_provisioner_type_names(t: Seq<char>)
    ensures
        provisioner_kind_named("ansible"@) == ProvisionerKind::Ansible,
        provisioner_kind_named("shell"@) == ProvisionerKind::Shell,
        provisioner_kind_named("script"@) == ProvisionerKind::Script,
        t != "ansible"@ && t != "shell"@ && t != "script"@ ==> provisioner_kind_named(t) == ProvisionerKind::Other,
{
    reveal_strlit("ansible");
    reveal_strlit("shell");
    reveal_strlit("script");
    assert("ansible"@.len() == 7);
    assert("shell"@.len() == 5);
    assert("script"@.len() == 6);
}

/// Provisioning runs every provisioner whose type it knows, Ansible, shell
/// and script alike, passes over exactly those of other types, stops at an
/// object without a type, and ends after the last object.
pub proof fn lemma_provisioning_decisions(c: ProvisionersContainer, i: int)
    requires
        0 <= i,
    ensures
        i >= c.entries().len() <==> c.decision(i) == ProvisionerDecision::Done,
        i < c.entries().len() ==> {
            let kind = provisioner_kind_of_text(c.entries()[i]@);
            &&& (c.decision(i) == ProvisionerDecision::MissingType <==> kind is None)
            &&& (c.decision(i) == ProvisionerDecision::Skip <==> kind == Some(ProvisionerKind::Other))
            &&& forall|k: ProvisionerKind|
                k != ProvisionerKind::Other ==> (c.decision(i) == ProvisionerDecision::Run(k) <==> kind
                    == Some(k))
        },
        i < c.entries().len() && json_str_member(c.entries()[i]@, "type"@) == Some("script"@)
            ==> c.decision(i) == ProvisionerDecision::Run(ProvisionerKind::Script),
        i < c.entries().len() && json_str_member(c.entries()[i]@, "type"@) == Some("ansible"@)
            ==> c.decision(i) == ProvisionerDecision::Run(ProvisionerKind::Ansible),
        i < c.entries().len() && json_str_member(c.entries()[i]@, "type"@) == Some("shell"@)
            ==> c.decision(i) == ProvisionerDecision::Run(ProvisionerKind::Shell),
{
    lemma_provisioner_type_names("script"@);
}

/// A root password is valid exactly when it is at most 64 characters long.
pub proof fn lemma_root_password_validity(c: RootPasswordContainer)
    ensures
        c.invalid_fields().len() == 0 <==> c.root_password@.len() <= 64,
{
}

} // verus!
