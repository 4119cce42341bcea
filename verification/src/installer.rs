//! Package installation as a plain loop over the command primitive: one
//! section names an install command and its packages, each package is
//! installed by running the install command with the package appended, and
//! the packages whose installation failed are collected and reported to the
//! caller instead of aborting the rest.

use vstd::prelude::*;

use crate::command::spec_starts_with_sudo;
use crate::command::spec_trim;
use crate::command::SingleCommand;

verus! {

/// The packages of one section that failed to install.
#[derive(Debug)]
pub struct FailedPackages {
    /// Name of the section the packages belong to.
    pub section_name: String,
    /// The packages that failed, in the order they were tried.
    pub failed_packages: Vec<String>,
}

impl FailedPackages {
    pub fn new(section_name: String) -> (r: FailedPackages)
        ensures
            r.section_name@ == section_name@,
            r.failed_packages@ =~= Seq::<String>::empty(),
    {
        FailedPackages { section_name, failed_packages: Vec::new() }
    }

    pub fn len(&self) -> (r: usize)
        ensures
            r == self.failed_packages@.len(),
    {
        self.failed_packages.len()
    }

    pub fn is_empty(&self) -> (r: bool)
        ensures
            r <==> self.failed_packages@.len() == 0,
    {
        self.failed_packages.is_empty()
    }

    pub fn push(&mut self, failed_package: String)
        ensures
            final(self).section_name@ == old(self).section_name@,
            final(self).failed_packages@ == old(self).failed_packages@.push(failed_package),
    {
        self.failed_packages.push(failed_package);
    }
}

/// One section of an installation description: the command that installs a
/// package, the packages to install, and whether installation needs
/// elevation.
#[derive(Debug)]
pub struct InstallerSection {
    /// Name of the section.
    name: String,
    /// Command used to install each package of this section.
    install_command: String,
    /// The packages to install, in order.
    packages: Vec<String>,
    /// Whether to elevate the install command; some package managers need
    /// no elevation.
    sudo: bool,
}

impl InstallerSection {
    pub closed spec fn spec_name(&self) -> Seq<char> {
        self.name@
    }

    pub closed spec fn spec_install_command(&self) -> Seq<char> {
        self.install_command@
    }

    pub closed spec fn spec_packages(&self) -> Seq<Seq<char>> {
        self.packages.deep_view()
    }

    pub closed spec fn spec_sudo(&self) -> bool {
        self.sudo
    }

    /// The full command string that installs one package: the section's
    /// install command, a space, and the package name.
    pub open spec fn spec_package_command(&self, package: Seq<char>) -> Seq<char> {
        self.spec_install_command() + seq![' '] + package
    }

    pub fn new(name: String, install_command: String, packages: Vec<String>, sudo: bool) -> (r:
        InstallerSection)
        ensures
            r.spec_name() == name@,
            r.spec_install_command() == install_command@,
            r.spec_packages() == packages.deep_view(),
            r.spec_sudo() == sudo,
    {
        InstallerSection { name, install_command, packages, sudo }
    }

    /// Tries to install every package of the section, in order, and collects
    /// the ones that failed; `None` when none failed. A failure does not
    /// stop the remaining packages. The caller must not smuggle elevation
    /// into the install command: no package's command string may start with
    /// `sudo` once trimmed.
    pub fn install_all_packages(&self) -> (r: Option<FailedPackages>)
        requires
            forall|i: int|
                0 <= i < self.spec_packages().len() ==> !spec_starts_with_sudo(
                    spec_trim(self.spec_package_command(self.spec_packages()[i])),
                ),
        ensures
            r matches Some(f) ==> f.failed_packages@.len() >= 1 && f.section_name@
                == self.spec_name(),
            r matches Some(f) ==> forall|j: int|
                0 <= j < f.failed_packages@.len() ==> self.spec_packages().contains(
                    f.failed_packages@[j]@,
                ),
    {
        let mut failed = FailedPackages::new(self.name.clone());
        let mut i: usize = 0;
        while i < self.packages.len()
            invariant
                i <= self.packages.len(),
                failed.section_name@ == self.spec_name(),
                forall|k: int|
                    0 <= k < self.spec_packages().len() ==> !spec_starts_with_sudo(
                        spec_trim(self.spec_package_command(self.spec_packages()[k])),
                    ),
                forall|j: int|
                    0 <= j < failed.failed_packages@.len() ==> self.spec_packages().contains(
                        failed.failed_packages@[j]@,
                    ),
            decreases self.packages.len() - i,
        {
            let package = &self.packages[i];
            let command_string = self.install_command.clone().concat(" ").concat(
                package.as_str(),
            );
            proof {
                reveal_strlit(" ");
                assert(command_string@ =~= self.spec_package_command(self.spec_packages()[i as int]));
            }
            let command = SingleCommand::from_clean(command_string, false, self.sudo);
            match command.run() {
                Ok(()) => {},
                Err(_) => {
                    failed.push(package.clone());
                    proof {
                        assert(self.spec_packages()[i as int] == self.packages@[i as int]@);
                        assert(self.spec_packages().contains(self.packages@[i as int]@));
                    }
                },
            }
            i = i + 1;
        }
        if failed.is_empty() {
            return None;
        }
        Some(failed)
    }
}

} // verus!
