//! The global build configuration.

use vstd::prelude::*;

use crate::json::{json_str_member, str_member};
use crate::templates::{template_base, template_base_of, TemplateBase, lemma_base_name_round_trip};
use crate::validate::{length_within, no_failures, note_failure, outcome, record_failure, within, ValidationErrors};

verus! {

/// The longest description accepted, in characters.
pub const MAX_DESCRIPTION: u64 = 4096;

/// The global configuration. Each template is a JSON object, held as text,
/// that names its kind in its `base` member.
#[derive(Clone, Debug, PartialEq, Eq)]
pub struct BuildConfig {
    /// The image name
    pub name: String,
    /// An image description
    pub description: Option<String>,
    pub arch: Option<String>,
    /// The amount of memory to allocate to the VM
    pub memory: Option<String>,
    pub nvme: Option<bool>,
    pub templates: Vec<String>,
}

/// Why the templates of a configuration could not be read.
#[derive(Clone, Copy, Debug, PartialEq, Eq, Structural)]
pub enum ConfigError {
    /// The template at this position names no known kind in `base`.
    UnknownTemplateBase(usize),
}

impl Default for BuildConfig {
    fn default() -> (r: Self)
        ensures
            r.name@.len() == 0,
            r.description is None,
            r.arch is None,
            r.memory is None,
            r.nvme is None,
            r.templates@.len() == 0,
    {
        BuildConfig {
            name: String::new(),
            description: None,
            arch: None,
            memory: None,
            nvme: None,
            templates: Vec::new(),
        }
    }
}

impl BuildConfig {
    /// Whether every template names its `base` as a string.
    pub open spec fn bases_present(self) -> bool {
        forall|i: int|
            0 <= i < self.templates@.len() ==> (#[trigger] json_str_member(self.templates@[i]@, "base"@)) is Some
    }

    /// The `base` member of each template.
    pub open spec fn base_names(self) -> Seq<Seq<char>> {
        self.templates@.map_values(|t: String| json_str_member(t@, "base"@)->0)
    }

    /// Whether every template names a known kind.
    pub open spec fn bases_known(self) -> bool {
        forall|i: int| 0 <= i < self.templates@.len() ==> (#[trigger] template_base_of(self.templates@[i]@)) is Some
    }

    /// Whether `i` is the position of the first template that names no known
    /// kind.
    pub open spec fn first_unknown_base(self, i: int) -> bool {
        &&& 0 <= i < self.templates@.len()
        &&& template_base_of(self.templates@[i]@) is None
        &&& forall|k: int| 0 <= k < i ==> (#[trigger] template_base_of(self.templates@[k]@)) is Some
    }

    /// The `base` member of each template. Each template must name it as a
    /// string.
    pub fn get_template_bases(&self) -> (r: Result<Vec<String>, ConfigError>)
        requires
            self.bases_present(),
        ensures
            r matches Ok(v) && v@.map_values(|s: String| s@) == self.base_names(),
    {
        let mut bases: Vec<String> = Vec::new();
        let mut i: usize = 0;
        while i < self.templates.len()
            invariant
                self.bases_present(),
                i <= self.templates@.len(),
                bases@.len() == i,
                forall|k: int| 0 <= k < i ==> Some(#[trigger] bases@[k]@) == json_str_member(self.templates@[k]@, "base"@),
            decreases self.templates@.len() - i,
        {
            assert(json_str_member(self.templates@[i as int]@, "base"@) is Some);
            let base = match str_member(self.templates[i].as_str(), "base") {
                Some(b) => b,
                None => String::new(),
            };
            bases.push(base);
            i = i + 1;
        }
        assert(bases@.map_values(|s: String| s@) =~= self.base_names());
        Ok(bases)
    }

    /// The `base` member of each template, or `None` where some template does
    /// not name it as a string.
    pub fn template_bases(&self) -> (r: Option<Vec<String>>)
        ensures
            r is Some <==> self.bases_present(),
            r matches Some(v) ==> v@.map_values(|s: String| s@) == self.base_names(),
    {
        let mut i: usize = 0;
        while i < self.templates.len()
            invariant
                i <= self.templates@.len(),
                forall|k: int| 0 <= k < i ==> (#[trigger] json_str_member(self.templates@[k]@, "base"@)) is Some,
            decreases self.templates@.len() - i,
        {
            if str_member(self.templates[i].as_str(), "base").is_none() {
                return None;
            }
            i = i + 1;
        }
        match self.get_template_bases() {
            Ok(v) => Some(v),
            Err(_) => None,
        }
    }

    /// The kind of each template, in order; `Err` with the position of the
    /// first template that names no known kind.
    pub fn get_templates(&self) -> (r: Result<Vec<TemplateBase>, ConfigError>)
        ensures
            r is Ok <==> self.bases_known(),
            r matches Ok(v) ==> v@.len() == self.templates@.len() && forall|i: int|
                0 <= i < v@.len() ==> Some(v@[i]) == template_base_of(self.templates@[i]@),
            r matches Err(ConfigError::UnknownTemplateBase(i)) ==> self.first_unknown_base(i as int),
    {
        let mut kinds: Vec<TemplateBase> = Vec::new();
        let mut i: usize = 0;
        while i < self.templates.len()
            invariant
                i <= self.templates@.len(),
                kinds@.len() == i,
                forall|k: int| 0 <= k < i ==> Some(#[trigger] kinds@[k]) == template_base_of(self.templates@[k]@),
                forall|k: int| 0 <= k < i ==> (#[trigger] template_base_of(self.templates@[k]@)) is Some,
            decreases self.templates@.len() - i,
        {
            match template_base(self.templates[i].as_str()) {
                Some(kind) => kinds.push(kind),
                None => {
                    return Err(ConfigError::UnknownTemplateBase(i));
                },
            }
            i = i + 1;
        }
        Ok(kinds)
    }

    /// The names of the fields that break their length bound, in the order
    /// `name`, `description`, `templates`.
    pub open spec fn invalid_fields(self) -> Seq<Seq<char>> {
        let description_ok = match self.description {
            Some(d) => within(d@.len(), None, Some(MAX_DESCRIPTION)),
            None => true,
        };
        note_failure(
            note_failure(
                note_failure(Seq::empty(), !within(self.name@.len(), Some(1), None), "name"@),
                !description_ok,
                "description"@,
            ),
            !within(self.templates@.len(), Some(1), None),
            "templates"@,
        )
    }

    /// Checks that the name is not empty, that the description holds at most
    /// 4096 characters, and that there is at least one template.
    pub fn validate(&self) -> (r: Result<(), ValidationErrors>)
        ensures
            r is Ok <==> self.invalid_fields().len() == 0,
            r matches Err(e) ==> e.names() == self.invalid_fields(),
    {
        let mut fields = no_failures();
        let name_ok = length_within(self.name.as_str(), Some(1), None);
        record_failure(&mut fields, !name_ok, "name");
        let description_ok = match &self.description {
            Some(d) => length_within(d.as_str(), None, Some(MAX_DESCRIPTION)),
            None => true,
        };
        record_failure(&mut fields, !description_ok, "description");
        let templates_ok = self.templates.len() >= 1;
        record_failure(&mut fields, !templates_ok, "templates");
        outcome(fields)
    }
}

/// Where the kinds of a configuration's templates can be read, each kind is
/// the one whose name the template holds in `base`: `get_templates` and
/// `get_template_bases` agree.
pub proof fn lemma_kinds_match_base_names(config: BuildConfig, kinds: Seq<TemplateBase>)
    requires
        kinds.len() == config.templates@.len(),
        forall|i: int| 0 <= i < kinds.len() ==> Some(kinds[i]) == template_base_of(config.templates@[i]@),
    ensures
        config.bases_present(),
        forall|i: int| 0 <= i < kinds.len() ==> (#[trigger] kinds[i]).base_name() == config.base_names()[i],
{
    assert forall|i: int| 0 <= i < config.templates@.len() implies (#[trigger] json_str_member(config.templates@[i]@, "base"@)) is Some by {
        assert(Some(kinds[i]) == template_base_of(config.templates@[i]@));
    }
    assert forall|i: int| 0 <= i < kinds.len() implies (#[trigger] kinds[i]).base_name() == config.base_names()[i] by {
        assert(Some(kinds[i]) == template_base_of(config.templates@[i]@));
        let s = json_str_member(config.templates@[i]@, "base"@)->0;
        lemma_base_name_round_trip(kinds[i], s);
    }
}

/// A configuration is valid exactly when it has a name, its description, if
/// any, is at most 4096 characters long, and it has at least one template.
pub proof fn lemma_config_validity(c: BuildConfig)
    ensures
        c.invalid_fields().len() == 0 <==> ({
            &&& c.name@.len() >= 1
            &&& (c.description matches Some(d) ==> d@.len() <= 4096)
            &&& c.templates@.len() >= 1
        }),
{
}

} // verus!
