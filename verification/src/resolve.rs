//! Resolving the effective parameters of one run from command-line values
//! and stored defaults.
//!
//! A run needs three values: the target file (`out`), the JSON key to set
//! (`field`), and the name of the virtual machine to query (`vm`). Each may
//! come from the command line or, on a normal run, from the settings file;
//! a command-line value always wins. When defaults are being set, all three
//! must come from the command line.

use vstd::prelude::*;
use crate::errors::{Param, RunError};

verus! {

/// The parameter triple of one run, as stored in the settings file.
#[derive(Debug)]
pub struct Config {
    pub out: String,
    pub field: String,
    pub vm: String,
}

/// The mathematical value of a `Config`: its three strings.
pub struct ConfigView {
    pub out: Seq<char>,
    pub field: Seq<char>,
    pub vm: Seq<char>,
}

impl View for Config {
    type V = ConfigView;

    open spec fn view(&self) -> ConfigView {
        ConfigView { out: self.out@, field: self.field@, vm: self.vm@ }
    }
}

/// What the command line supplied: each value optional, plus the flag that
/// asks for the values to be stored as defaults.
#[derive(Debug)]
pub struct CliArgs {
    pub out: Option<String>,
    pub field: Option<String>,
    pub vm: Option<String>,
    pub set_default: bool,
}

/// The mathematical value of `CliArgs`.
pub struct CliArgsView {
    pub out: Option<Seq<char>>,
    pub field: Option<Seq<char>>,
    pub vm: Option<Seq<char>>,
    pub set_default: bool,
}

impl View for CliArgs {
    type V = CliArgsView;

    open spec fn view(&self) -> CliArgsView {
        CliArgsView {
            out: match self.out { Some(s) => Some(s@), None => None },
            field: match self.field { Some(s) => Some(s@), None => None },
            vm: match self.vm { Some(s) => Some(s@), None => None },
            set_default: self.set_default,
        }
    }
}

/// What one invocation should do: store the triple as defaults, or run a
/// query with the triple as effective parameters.
#[derive(Debug)]
pub enum Plan {
    SaveDefaults(Config),
    Run(Config),
}

/// The mathematical value of a `Plan`.
pub enum PlanView {
    SaveDefaults(ConfigView),
    Run(ConfigView),
}

impl View for Plan {
    type V = PlanView;

    open spec fn view(&self) -> PlanView {
        match self {
            Plan::SaveDefaults(c) => PlanView::SaveDefaults(c@),
            Plan::Run(c) => PlanView::Run(c@),
        }
    }
}

/// The view of an optional stored configuration.
pub open spec fn opt_config_view(d: Option<Config>) -> Option<ConfigView> {
    match d {
        Some(c) => Some(c@),
        None => None,
    }
}

/// One field's resolution: the command-line value when present, else the
/// stored default when present.
pub open spec fn spec_pick(cli: Option<Seq<char>>, def: Option<Seq<char>>) -> Option<Seq<char>> {
    if cli is Some {
        cli
    } else {
        def
    }
}

/// The whole resolution, as a function of the command-line values and the
/// loaded defaults. With `set_default`, all three command-line values must
/// be present, checked in the order `out`, `field`, `vm`, and no default is
/// consulted; otherwise each field falls back to its stored default, and a
/// missing field is reported in the same order.
pub open spec fn spec_resolve(a: CliArgsView, d: Option<ConfigView>) -> Result<PlanView, RunError> {
    if a.set_default {
        if a.out is None {
            Err(RunError::MissingParameter { param: Param::Out, for_default: true })
        } else if a.field is None {
            Err(RunError::MissingParameter { param: Param::Field, for_default: true })
        } else if a.vm is None {
            Err(RunError::MissingParameter { param: Param::Vm, for_default: true })
        } else {
            Ok(PlanView::SaveDefaults(ConfigView {
                out: a.out->0,
                field: a.field->0,
                vm: a.vm->0,
            }))
        }
    } else {
        let d_out = match d { Some(c) => Some(c.out), None => None };
        let d_field = match d { Some(c) => Some(c.field), None => None };
        let d_vm = match d { Some(c) => Some(c.vm), None => None };
        if spec_pick(a.out, d_out) is None {
            Err(RunError::MissingParameter { param: Param::Out, for_default: false })
        } else if spec_pick(a.field, d_field) is None {
            Err(RunError::MissingParameter { param: Param::Field, for_default: false })
        } else if spec_pick(a.vm, d_vm) is None {
            Err(RunError::MissingParameter { param: Param::Vm, for_default: false })
        } else {
            Ok(PlanView::Run(ConfigView {
                out: spec_pick(a.out, d_out)->0,
                field: spec_pick(a.field, d_field)->0,
                vm: spec_pick(a.vm, d_vm)->0,
            }))
        }
    }
}

/// Resolves the effective parameters of one invocation, exactly as
/// `spec_resolve` describes.
pub fn resolve(args: CliArgs, defaults: Option<Config>) -> (r: Result<Plan, RunError>)
    ensures
        match (r, spec_resolve(args@, opt_config_view(defaults))) {
            (Ok(p), Ok(pv)) => p@ == pv,
            (Err(e), Err(ev)) => e == ev,
            _ => false,
        },
{
    if args.set_default {
        let out = match args.out {
            Some(o) => o,
            None => {
                return Err(RunError::MissingParameter { param: Param::Out, for_default: true });
            },
        };
        let field = match args.field {
            Some(f) => f,
            None => {
                return Err(RunError::MissingParameter { param: Param::Field, for_default: true });
            },
        };
        let vm = match args.vm {
            Some(v) => v,
            None => {
                return Err(RunError::MissingParameter { param: Param::Vm, for_default: true });
            },
        };
        Ok(Plan::SaveDefaults(Config { out, field, vm }))
    } else {
        let (d_out, d_field, d_vm) = match defaults {
            Some(c) => (Some(c.out), Some(c.field), Some(c.vm)),
            None => (None, None, None),
        };
        let out = match (args.out, d_out) {
            (Some(o), _) => o,
            (None, Some(o)) => o,
            (None, None) => {
                return Err(RunError::MissingParameter { param: Param::Out, for_default: false });
            },
        };
        let field = match (args.field, d_field) {
            (Some(f), _) => f,
            (None, Some(f)) => f,
            (None, None) => {
                return Err(RunError::MissingParameter { param: Param::Field, for_default: false });
            },
        };
        let vm = match (args.vm, d_vm) {
            (Some(v), _) => v,
            (None, Some(v)) => v,
            (None, None) => {
                return Err(RunError::MissingParameter { param: Param::Vm, for_default: false });
            },
        };
        Ok(Plan::Run(Config { out, field, vm }))
    }
}

/// A normal run with nothing on the command line takes the stored triple
/// unchanged.
pub proof fn lemma_defaults_fallback(a: CliArgsView, d: ConfigView)
    requires
        !a.set_default,
        a.out is None,
        a.field is None,
        a.vm is None,
    ensures
        spec_resolve(a, Some(d)) == Ok::<PlanView, RunError>(PlanView::Run(d)),
{
    assert(spec_resolve(a, Some(d)) =~= Ok::<PlanView, RunError>(PlanView::Run(ConfigView {
        out: d.out,
        field: d.field,
        vm: d.vm,
    })));
}

/// On a normal run with stored defaults present, each effective field is the
/// command-line value when one was given, and the stored default otherwise:
/// the command line takes precedence, field by field, and the run succeeds.
pub proof fn lemma_cli_precedence(a: CliArgsView, d: ConfigView)
    requires
        !a.set_default,
    ensures
        spec_resolve(a, Some(d)) == Ok::<PlanView, RunError>(PlanView::Run(ConfigView {
            out: if a.out is Some { a.out->0 } else { d.out },
            field: if a.field is Some { a.field->0 } else { d.field },
            vm: if a.vm is Some { a.vm->0 } else { d.vm },
        })),
{
}

} // verus!
