//! Start-up configuration: the target architecture, the source of the
//! shared object, and the validated configuration value that the rest
//! of the tool is handed.

use vstd::prelude::*;

use crate::bytes::eq_bytes;
use crate::bytes::extend_bytes;
use crate::error::Error;
use crate::lit;

verus! {

/// The target application's architecture.
#[derive(Debug)]
pub enum Arch {
    Arm,
    Arm64,
}

/// The architecture's native-library tag.
pub open spec fn jni_name_spec(a: Arch) -> Seq<u8> {
    match a {
        Arch::Arm => lit::arm_tag(),
        Arch::Arm64 => lit::arm64_tag(),
    }
}

impl Arch {
    /// The native-library tag of this architecture: the subdirectory
    /// name that holds its binaries.
    pub fn jni_name(&self) -> (r: Vec<u8>)
        ensures
            r@ == jni_name_spec(*self),
    {
        match self {
            Arch::Arm => lit::make_arm_tag(),
            Arch::Arm64 => lit::make_arm64_tag(),
        }
    }
}

/// Reads an architecture flag's value: `arm` or `arm64`. Any other
/// value is a configuration error.
pub fn parse_arch(s: &Vec<u8>) -> (r: Result<Arch, Error>)
    ensures
        s@ == lit::arm_name() ==> r == Ok::<Arch, Error>(Arch::Arm),
        s@ == lit::arm64_name() ==> r == Ok::<Arch, Error>(Arch::Arm64),
        s@ != lit::arm_name() && s@ != lit::arm64_name() ==> r == Err::<Arch, Error>(
            Error::ConfigurationError,
        ),
{
    let arm = lit::make_arm_name();
    if eq_bytes(s, &arm) {
        return Ok(Arch::Arm);
    }
    let arm64 = lit::make_arm64_name();
    if eq_bytes(s, &arm64) {
        return Ok(Arch::Arm64);
    }
    Err(Error::ConfigurationError)
}

/// Where the shared object comes from: a direct library path, or an
/// archive whose name is searched for in the current directory.
#[derive(Debug)]
pub enum Source {
    Lib(Vec<u8>),
    Aar(Vec<u8>),
}

/// Validates the source-selection flags: exactly one of a direct
/// library path and the archive flag must be supplied, and the archive
/// flag needs the archive's name.
pub fn validate_source(so_path: Option<Vec<u8>>, is_aar: bool, aar_name: Option<Vec<u8>>) -> (r:
    Result<Source, Error>)
    ensures
        so_path is Some && is_aar ==> r == Err::<Source, Error>(Error::ConfigurationError),
        so_path is None && !is_aar ==> r == Err::<Source, Error>(Error::ConfigurationError),
        so_path is Some && !is_aar ==> (r matches Ok(s) && s matches Source::Lib(q) && q@
            == so_path->Some_0@),
        so_path is None && is_aar && aar_name is Some ==> (r matches Ok(s) && s matches
            Source::Aar(m) && m@ == aar_name->Some_0@),
        so_path is None && is_aar && aar_name is None ==> r == Err::<Source, Error>(
            Error::ConfigurationError,
        ),
{
    match (so_path, is_aar) {
        (Some(_), true) => Err(Error::ConfigurationError),
        (None, false) => Err(Error::ConfigurationError),
        (Some(p), false) => Ok(Source::Lib(p)),
        (None, true) => match aar_name {
            Some(n) => Ok(Source::Aar(n)),
            None => Err(Error::ConfigurationError),
        },
    }
}

/// The validated configuration the tool runs with: the target package,
/// the resolved local library path, and the architecture.
pub struct Config {
    pub package_name: Vec<u8>,
    pub lib_path: Vec<u8>,
    pub arch: Arch,
}

impl Config {
    pub fn new(package_name: Vec<u8>, lib_path: Vec<u8>, arch: Arch) -> (c: Config)
        ensures
            c.package_name@ == package_name@,
            c.lib_path@ == lib_path@,
            c.arch == arch,
    {
        Config { package_name, lib_path, arch }
    }

    /// The package whose installation directory is searched for.
    pub fn target_package(&self) -> (r: &Vec<u8>)
        ensures
            r@ == self.package_name@,
    {
        &self.package_name
    }

    /// The local shared object to transfer.
    pub fn local_lib(&self) -> (r: &Vec<u8>)
        ensures
            r@ == self.lib_path@,
    {
        &self.lib_path
    }

    /// The configured architecture's native-library tag.
    pub fn jni_name(&self) -> (r: Vec<u8>)
        ensures
            r@ == jni_name_spec(self.arch),
    {
        self.arch.jni_name()
    }
}

/// The architecture-specific native-library directory under a found
/// application directory: `<app_dir>/lib/<tag>`.
pub open spec fn app_so_dir_spec(app_dir: Seq<u8>, tag: Seq<u8>) -> Seq<u8> {
    app_dir + lit::lib_subdir() + tag
}

pub fn app_so_dir(app_dir: &Vec<u8>, tag: &Vec<u8>) -> (r: Vec<u8>)
    ensures
        r@ == app_so_dir_spec(app_dir@, tag@),
{
    let mut v: Vec<u8> = Vec::new();
    extend_bytes(&mut v, app_dir);
    let sep = lit::make_lib_subdir();
    extend_bytes(&mut v, &sep);
    extend_bytes(&mut v, tag);
    proof {
        assert(v@ =~= app_so_dir_spec(app_dir@, tag@));
    }
    v
}

/// The package's private library directory: `/data/data/<pkg>/lib`.
pub open spec fn data_lib_dir_spec(pkg: Seq<u8>) -> Seq<u8> {
    lit::data_data() + pkg + lit::lib_suffix()
}

pub fn data_lib_dir(pkg: &Vec<u8>) -> (r: Vec<u8>)
    ensures
        r@ == data_lib_dir_spec(pkg@),
{
    let mut v = lit::make_data_data();
    extend_bytes(&mut v, pkg);
    let suf = lit::make_lib_suffix();
    extend_bytes(&mut v, &suf);
    proof {
        assert(v@ =~= data_lib_dir_spec(pkg@));
    }
    v
}

} // verus!
