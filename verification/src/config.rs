//! The build configuration: the accumulator folded over the document, and
//! the immutable finalized artifact.
use vstd::prelude::*;
use crate::dest::{Dest, DestV};
use crate::instruction::{CopyStep, CopyStepV, InstructionV, Kind};

verus! {

/// The mathematical state of the accumulator, and of the finalized
/// configuration: the ordered copy sequence, the current kind, and the
/// current command destination.
#[verifier::ext_equal]
pub ghost struct ConfigV {
    pub copys: Seq<CopyStepV>,
    pub kind: Kind,
    pub cmd: Option<DestV>,
}

/// The empty accumulator: no copies, the default kind, no command.
pub open spec fn init_config() -> ConfigV {
    ConfigV { copys: Seq::empty(), kind: Kind::Wasi, cmd: None }
}

/// One accepted instruction applied to the accumulator: copies append in
/// order; kind and command are overwritten, last write wins.
pub open spec fn apply_ins(c: ConfigV, i: InstructionV) -> ConfigV {
    match i {
        InstructionV::FileCopy(s) => ConfigV { copys: c.copys.push(s), kind: c.kind, cmd: c.cmd },
        InstructionV::Kind(k) => ConfigV { copys: c.copys, kind: k, cmd: c.cmd },
        InstructionV::Cmd(d) => ConfigV { copys: c.copys, kind: c.kind, cmd: Some(d) },
    }
}

/// The mutable accumulator owned by one translation pass.
#[derive(Debug)]
pub struct BuildConfigBuilder {
    pub copys: Vec<CopyStep>,
    pub kind: Kind,
    pub cmd: Option<Dest>,
}

impl DeepView for BuildConfigBuilder {
    type V = ConfigV;

    open spec fn deep_view(&self) -> ConfigV {
        ConfigV { copys: self.copys.deep_view(), kind: self.kind, cmd: self.cmd.deep_view() }
    }
}

/// The finalized, immutable translation result; its copy sequence is
/// never empty.
#[derive(Debug)]
pub struct BuildConfig {
    pub copys: Vec<CopyStep>,
    pub kind: Kind,
    pub cmd: Option<Dest>,
}

impl DeepView for BuildConfig {
    type V = ConfigV;

    open spec fn deep_view(&self) -> ConfigV {
        ConfigV { copys: self.copys.deep_view(), kind: self.kind, cmd: self.cmd.deep_view() }
    }
}

impl Default for BuildConfigBuilder {
    /// The empty accumulator.
    fn default() -> (b: Self)
        ensures
            b.deep_view() == init_config(),
    {
        let b = BuildConfigBuilder { copys: Vec::new(), kind: Kind::Wasi, cmd: None };
        proof {
            assert(b.deep_view() =~= init_config());
        }
        b
    }
}

impl BuildConfigBuilder {
    /// Append one accepted transfer; earlier copies keep their order.
    pub fn append_copy(&mut self, c: CopyStep)
        ensures
            final(self).deep_view() == apply_ins(
                old(self).deep_view(),
                InstructionV::FileCopy(c.deep_view()),
            ),
    {
        self.copys.push(c);
        proof {
            assert(self.deep_view().copys =~= old(self).deep_view().copys.push(c.deep_view()));
        }
    }

    /// Overwrite the current kind: last write wins.
    pub fn mut_kind(&mut self, k: Kind)
        ensures
            final(self).deep_view() == apply_ins(old(self).deep_view(), InstructionV::Kind(k)),
    {
        self.kind = k;
    }

    /// Overwrite the current command destination: last write wins.
    pub fn mut_cmd(&mut self, c: Dest)
        ensures
            final(self).deep_view() == apply_ins(
                old(self).deep_view(),
                InstructionV::Cmd(c.deep_view()),
            ),
    {
        self.cmd = Some(c);
    }

    /// Finalize the accumulator; the copy sequence must not be empty.
    pub fn build(self) -> (c: BuildConfig)
        requires
            self.deep_view().copys.len() > 0,
        ensures
            c.deep_view() == self.deep_view(),
            c.deep_view().copys.len() > 0,
    {
        let BuildConfigBuilder { copys, kind, cmd } = self;
        BuildConfig { copys, kind, cmd }
    }
}

} // verus!
