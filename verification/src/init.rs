//! Creating the configuration of a new build directory.

use vstd::prelude::*;

use crate::config::BuildConfig;
use crate::templates::TemplateBase;
use crate::text::{decimal, decimal_string, str_eq};

verus! {

/// The memory size, in megabytes, given to a new configuration on a system
/// with `free_mb` megabytes of free memory: 2048 where more than that is
/// free, else half of what is free.
pub open spec fn guessed_memory(free_mb: u64) -> u64 {
    if free_mb > 2048 {
        2048
    } else {
        free_mb / 2
    }
}

/// Choose some arbitrary memory size in megabytes which is less than the amount of available free
/// memory on the system (`free_mb` megabytes).
pub fn guess_memory_size(free_mb: u64) -> (r: u64)
    requires
        free_mb > 0,
    ensures
        r < free_mb,
        r == guessed_memory(free_mb),
{
    if free_mb > 2048 {
        2048
    } else {
        free_mb / 2
    }
}

/// Why a new configuration could not be made.
#[derive(Clone, Copy, Debug, PartialEq, Eq, Structural)]
pub enum InitError {
    /// No template was named.
    NoTemplates,
    /// The platform is neither `x86_64` nor `aarch64`.
    UnsupportedPlatform,
    /// The template name at this position names no template kind.
    UnknownTemplate(usize),
}

/// Whether goldboot builds images on the platform `arch`.
pub open spec fn supported_arch(arch: Seq<char>) -> bool {
    arch == "x86_64"@ || arch == "aarch64"@
}

/// Whether `i` is the position of the first name in `names` that names no
/// template kind.
pub open spec fn first_unknown_template(names: Seq<String>, i: int) -> bool {
    &&& 0 <= i < names.len()
    &&& TemplateBase::base_named(names[i]@) is None
    &&& forall|k: int| 0 <= k < i ==> (#[trigger] TemplateBase::base_named(names[k]@)) is Some
}

/// The name of a new configuration: the one given, else that of the
/// directory, else none.
pub open spec fn initial_name(name: Option<String>, dir_name: Option<String>) -> Seq<char> {
    match name {
        Some(n) => n@,
        None => match dir_name {
            Some(d) => d@,
            None => Seq::empty(),
        },
    }
}

/// The memory size of a new configuration: the one given; else the guess for
/// the free memory, where it is known and positive; else 2048 megabytes. In
/// decimal.
pub open spec fn initial_memory(memory: Option<String>, free_mb: Option<u64>) -> Seq<char> {
    match memory {
        Some(m) => m@,
        None => match free_mb {
            Some(f) if f > 0 => decimal(guessed_memory(f) as nat),
            _ => decimal(2048),
        },
    }
}

/// The configuration of a new build directory, from the template names
/// given, the image name if one is given, the name of the directory, the
/// platform's architecture, the memory size if one is given, and the free
/// memory of the system in megabytes where it is known. Each template starts
/// as what `default_template` gives for its kind, called once per name, in
/// order.
pub fn init_config<F: Fn(TemplateBase) -> String>(
    templates: &Vec<String>,
    name: Option<String>,
    dir_name: Option<String>,
    target_arch: &str,
    memory: Option<String>,
    free_mb: Option<u64>,
    default_template: F,
) -> (r: Result<BuildConfig, InitError>)
    requires
        forall|b: TemplateBase| call_requires(default_template, (b,)),
    ensures
        r == Err::<BuildConfig, InitError>(InitError::NoTemplates) <==> templates@.len() == 0,
        r == Err::<BuildConfig, InitError>(InitError::UnsupportedPlatform) <==> (templates@.len() != 0
            && !supported_arch(target_arch@)),
        r matches Err(InitError::UnknownTemplate(i)) ==> templates@.len() != 0 && supported_arch(
            target_arch@,
        ) && first_unknown_template(templates@, i as int),
        r is Ok <==> templates@.len() != 0 && supported_arch(target_arch@) && forall|i: int|
            0 <= i < templates@.len() ==> (#[trigger] TemplateBase::base_named(templates@[i]@)) is Some,
        r matches Ok(c) ==> {
            &&& c.name@ == initial_name(name, dir_name)
            &&& c.description is None
            &&& c.arch matches Some(a) && a@ == target_arch@
            &&& c.memory matches Some(m) && m@ == initial_memory(memory, free_mb)
            &&& c.nvme is None
            &&& c.templates@.len() == templates@.len()
            &&& forall|i: int|
                0 <= i < templates@.len() ==> call_ensures(
                    default_template,
                    (TemplateBase::base_named(templates@[i]@)->0,),
                    #[trigger] c.templates@[i],
                )
        },
        memory matches Some(m) ==> (r matches Ok(c) ==> c.memory matches Some(x) && x@ == m@),
        r matches Ok(c) ==> (c.invalid_fields().len() == 0 <==> initial_name(name, dir_name).len() > 0),
{
    if templates.len() == 0 {
        return Err(InitError::NoTemplates);
    }
    let mut config = BuildConfig::default();
    match name {
        Some(n) => {
            config.name = n;
        },
        None => {
            if let Some(d) = dir_name {
                config.name = d;
            }
        },
    }
    if str_eq(target_arch, "x86_64") {
        config.arch = Some("x86_64".to_owned());
    } else if str_eq(target_arch, "aarch64") {
        config.arch = Some("aarch64".to_owned());
    } else {
        return Err(InitError::UnsupportedPlatform);
    }
    config.memory = match memory {
        Some(m) => Some(m),
        None => match free_mb {
            Some(f) if f > 0 => Some(decimal_string(guess_memory_size(f))),
            _ => Some(decimal_string(2048)),
        },
    };
    let mut default_templates: Vec<String> = Vec::new();
    let mut i: usize = 0;
    while i < templates.len()
        invariant
            i <= templates@.len(),
            templates@.len() != 0,
            supported_arch(target_arch@),
            forall|b: TemplateBase| call_requires(default_template, (b,)),
            default_templates@.len() == i,
            forall|k: int| 0 <= k < i ==> (#[trigger] TemplateBase::base_named(templates@[k]@)) is Some,
            forall|k: int|
                0 <= k < i ==> call_ensures(
                    default_template,
                    (TemplateBase::base_named(templates@[k]@)->0,),
                    #[trigger] default_templates@[k],
                ),
        decreases templates@.len() - i,
    {
        match TemplateBase::from_name(templates[i].as_str()) {
            Some(kind) => {
                let t = default_template(kind);
                default_templates.push(t);
            },
            None => return Err(InitError::UnknownTemplate(i)),
        }
        i = i + 1;
    }
    config.templates = default_templates;
    Ok(config)
}

/// The memory size given is the configuration's, whatever the free memory.
/// Only where none is given is one guessed: below the free memory where that
/// is known and positive (2048 MB where more than that is free), else
/// 2048 MB.
pub proof fn lemma_memory_choice(memory: Option<String>, free_mb: Option<u64>)
    ensures
        memory matches Some(m) ==> initial_memory(memory, free_mb) == m@,
        forall|f: u64|
            memory is None && free_mb == Some(f) && f > 0 ==> {
                &&& #[trigger] guessed_memory(f) < f
                &&& (f > 2048 ==> guessed_memory(f) == 2048)
                &&& initial_memory(memory, free_mb) == decimal(guessed_memory(f) as nat)
            },
        memory is None && (free_mb is None || free_mb == Some(0u64)) ==> initial_memory(memory, free_mb)
            == decimal(2048),
{
}

} // verus!
