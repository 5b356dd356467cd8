//! The step catalog: each configuration step of the pipeline, planned as
//! data, with a contract pinning the exact program names, argument
//! vectors, failure policies, probes and pauses of its plan.

use vstd::prelude::*;
use vstd::string::StringExecFns;
use crate::command::{Cmd, CmdModel, Invocation, InvocationModel, OnFailure};
use crate::step::{Directive, DirectiveModel, Step, StepModel};

verus! {

/// A strict invocation: a launch failure aborts the step.
pub open spec fn strict_model(program: Seq<char>, args: Seq<Seq<char>>) -> DirectiveModel {
    DirectiveModel::Invoke(
        InvocationModel { cmd: CmdModel { program, args }, on_failure: OnFailure::Abort },
    )
}

/// A tolerated invocation: a launch failure is discarded.
pub open spec fn tolerant_model(program: Seq<char>, args: Seq<Seq<char>>) -> DirectiveModel {
    DirectiveModel::Invoke(
        InvocationModel { cmd: CmdModel { program, args }, on_failure: OnFailure::Ignore },
    )
}

/// A registry write: `reg add <key> /v <value> /t <kind> /d <data> /f`, strict.
pub open spec fn reg_add_model(
    key: Seq<char>,
    value: Seq<char>,
    kind: Seq<char>,
    data: Seq<char>,
) -> DirectiveModel {
    strict_model(
        "reg"@,
        seq!["add"@, key, "/v"@, value, "/t"@, kind, "/d"@, data, "/f"@],
    )
}

fn cmd0(program: &str) -> (c: Cmd)
    ensures
        c@ == (CmdModel { program: program@, args: Seq::empty() }),
{
    let c = Cmd { program: program.to_owned(), args: Vec::new() };
    proof {
        assert(c@.args =~= Seq::<Seq<char>>::empty());
    }
    c
}

fn cmd1(program: &str, a0: &str) -> (c: Cmd)
    ensures
        c@ == (CmdModel { program: program@, args: seq![a0@] }),
{
    let c = Cmd { program: program.to_owned(), args: vec![a0.to_owned()] };
    proof {
        assert(c@.args =~= seq![a0@]);
    }
    c
}

fn cmd2(program: &str, a0: &str, a1: &str) -> (c: Cmd)
    ensures
        c@ == (CmdModel { program: program@, args: seq![a0@, a1@] }),
{
    let c = Cmd { program: program.to_owned(), args: vec![a0.to_owned(), a1.to_owned()] };
    proof {
        assert(c@.args =~= seq![a0@, a1@]);
    }
    c
}

fn cmd3(program: &str, a0: &str, a1: &str, a2: &str) -> (c: Cmd)
    ensures
        c@ == (CmdModel { program: program@, args: seq![a0@, a1@, a2@] }),
{
    let c = Cmd {
        program: program.to_owned(),
        args: vec![a0.to_owned(), a1.to_owned(), a2.to_owned()],
    };
    proof {
        assert(c@.args =~= seq![a0@, a1@, a2@]);
    }
    c
}

fn cmd4(program: &str, a0: &str, a1: &str, a2: &str, a3: &str) -> (c: Cmd)
    ensures
        c@ == (CmdModel { program: program@, args: seq![a0@, a1@, a2@, a3@] }),
{
    let c = Cmd {
        program: program.to_owned(),
        args: vec![a0.to_owned(), a1.to_owned(), a2.to_owned(), a3.to_owned()],
    };
    proof {
        assert(c@.args =~= seq![a0@, a1@, a2@, a3@]);
    }
    c
}

fn cmd5(program: &str, a0: &str, a1: &str, a2: &str, a3: &str, a4: &str) -> (c: Cmd)
    ensures
        c@ == (CmdModel { program: program@, args: seq![a0@, a1@, a2@, a3@, a4@] }),
{
    let c = Cmd {
        program: program.to_owned(),
        args: vec![a0.to_owned(), a1.to_owned(), a2.to_owned(), a3.to_owned(), a4.to_owned()],
    };
    proof {
        assert(c@.args =~= seq![a0@, a1@, a2@, a3@, a4@]);
    }
    c
}

fn cmd7(program: &str, a0: &str, a1: &str, a2: &str, a3: &str, a4: &str, a5: &str, a6: &str) -> (c:
    Cmd)
    ensures
        c@ == (CmdModel { program: program@, args: seq![a0@, a1@, a2@, a3@, a4@, a5@, a6@] }),
{
    let c = Cmd {
        program: program.to_owned(),
        args: vec![
            a0.to_owned(),
            a1.to_owned(),
            a2.to_owned(),
            a3.to_owned(),
            a4.to_owned(),
            a5.to_owned(),
            a6.to_owned(),
        ],
    };
    proof {
        assert(c@.args =~= seq![a0@, a1@, a2@, a3@, a4@, a5@, a6@]);
    }
    c
}

fn cmd8(
    program: &str,
    a0: &str,
    a1: &str,
    a2: &str,
    a3: &str,
    a4: &str,
    a5: &str,
    a6: &str,
    a7: &str,
) -> (c: Cmd)
    ensures
        c@ == (CmdModel { program: program@, args: seq![a0@, a1@, a2@, a3@, a4@, a5@, a6@, a7@] }),
{
    let c = Cmd {
        program: program.to_owned(),
        args: vec![
            a0.to_owned(),
            a1.to_owned(),
            a2.to_owned(),
            a3.to_owned(),
            a4.to_owned(),
            a5.to_owned(),
            a6.to_owned(),
            a7.to_owned(),
        ],
    };
    proof {
        assert(c@.args =~= seq![a0@, a1@, a2@, a3@, a4@, a5@, a6@, a7@]);
    }
    c
}

fn cmd9(
    program: &str,
    a0: &str,
    a1: &str,
    a2: &str,
    a3: &str,
    a4: &str,
    a5: &str,
    a6: &str,
    a7: &str,
    a8: &str,
) -> (c: Cmd)
    ensures
        c@ == (CmdModel {
            program: program@,
            args: seq![a0@, a1@, a2@, a3@, a4@, a5@, a6@, a7@, a8@],
        }),
{
    let c = Cmd {
        program: program.to_owned(),
        args: vec![
            a0.to_owned(),
            a1.to_owned(),
            a2.to_owned(),
            a3.to_owned(),
            a4.to_owned(),
            a5.to_owned(),
            a6.to_owned(),
            a7.to_owned(),
            a8.to_owned(),
        ],
    };
    proof {
        assert(c@.args =~= seq![a0@, a1@, a2@, a3@, a4@, a5@, a6@, a7@, a8@]);
    }
    c
}

fn strict(cmd: Cmd) -> (d: Directive)
    ensures
        d@ == strict_model(cmd@.program, cmd@.args),
{
    Directive::Invoke(Invocation { cmd, on_failure: OnFailure::Abort })
}

fn tolerant(cmd: Cmd) -> (d: Directive)
    ensures
        d@ == tolerant_model(cmd@.program, cmd@.args),
{
    Directive::Invoke(Invocation { cmd, on_failure: OnFailure::Ignore })
}

fn reg_add(key: &str, value: &str, kind: &str, data: &str) -> (d: Directive)
    ensures
        d@ == reg_add_model(key@, value@, kind@, data@),
{
    strict(cmd9("reg", "add", key, "/v", value, "/t", kind, "/d", data, "/f"))
}

/// Restores default power schemes, activates the high-performance
/// scheme, and turns hibernation on.
pub open spec fn power_optimization_model() -> StepModel {
    StepModel {
        name: "Energy optimizations"@,
        directives: seq![
            strict_model("powercfg"@, seq!["/restoredefaultschemes"@]),
            strict_model("powercfg"@, seq!["/setactive"@, "SCHEME_MIN"@]),
            strict_model("powercfg"@, seq!["-h"@, "on"@]),
        ],
    }
}

pub fn step_power_optimization() -> (s: Step)
    ensures
        s@ == power_optimization_model(),
{
    let mut directives: Vec<Directive> = Vec::new();
    directives.push(strict(cmd1("powercfg", "/restoredefaultschemes")));
    directives.push(strict(cmd2("powercfg", "/setactive", "SCHEME_MIN")));
    directives.push(strict(cmd2("powercfg", "-h", "on")));
    let s = Step { name: "Energy optimizations".to_owned(), directives };
    proof {
        assert(s@.directives =~= power_optimization_model().directives);
        assert(s@ =~= power_optimization_model());
    }
    s
}

/// The startup mode a service is reconfigured to.
#[derive(Clone, Copy, PartialEq, Eq, Structural)]
pub enum StartMode {
    Demand,
    Disabled,
}

/// Reconfiguring one service: probe it with `sc query`; only if the
/// query reports success, set its startup mode strictly, and for a
/// service being disabled also stop it, tolerating a failure of the
/// stop. A query that cannot be launched aborts the step; a query that
/// reports failure skips the service.
pub open spec fn configure_service_model(service: Seq<char>, mode: StartMode) -> DirectiveModel {
    DirectiveModel::Probe {
        query: CmdModel { program: "sc"@, args: seq!["query"@, service] },
        marker: None,
        guarded: if mode is Disabled {
            seq![
                InvocationModel {
                    cmd: CmdModel {
                        program: "sc"@,
                        args: seq!["config"@, service, "start=disabled"@],
                    },
                    on_failure: OnFailure::Abort,
                },
                InvocationModel {
                    cmd: CmdModel { program: "sc"@, args: seq!["stop"@, service] },
                    on_failure: OnFailure::Ignore,
                },
            ]
        } else {
            seq![
                InvocationModel {
                    cmd: CmdModel {
                        program: "sc"@,
                        args: seq!["config"@, service, "start=demand"@],
                    },
                    on_failure: OnFailure::Abort,
                },
            ]
        },
    }
}

pub fn configure_service(service: &str, mode: StartMode) -> (d: Directive)
    ensures
        d@ == configure_service_model(service@, mode),
{
    let query = cmd2("sc", "query", service);
    let mut guarded: Vec<Invocation> = Vec::new();
    match mode {
        StartMode::Demand => {
            guarded.push(
                Invocation {
                    cmd: cmd3("sc", "config", service, "start=demand"),
                    on_failure: OnFailure::Abort,
                },
            );
        },
        StartMode::Disabled => {
            guarded.push(
                Invocation {
                    cmd: cmd3("sc", "config", service, "start=disabled"),
                    on_failure: OnFailure::Abort,
                },
            );
            guarded.push(
                Invocation { cmd: cmd2("sc", "stop", service), on_failure: OnFailure::Ignore },
            );
        },
    }
    let d = Directive::Probe { query, marker: None, guarded };
    proof {
        assert(d@->Probe_guarded =~= configure_service_model(service@, mode)->Probe_guarded);
        assert(d@ =~= configure_service_model(service@, mode));
    }
    d
}

/// Sets the startup mode of each managed service, most to on-demand and
/// a few to disabled, each behind its own `sc query` probe.
pub open spec fn configure_services_model() -> StepModel {
    StepModel {
        name: "Service Configuration"@,
        directives: seq![
            configure_service_model("LanmanServer"@, StartMode::Demand),
            configure_service_model("CryptSvc"@, StartMode::Demand),
            configure_service_model("LanmanWorkstation"@, StartMode::Demand),
            configure_service_model("DusmSvc"@, StartMode::Demand),
            configure_service_model("DiagTrack"@, StartMode::Demand),
            configure_service_model("StiSvc"@, StartMode::Demand),
            configure_service_model("BITS"@, StartMode::Demand),
            configure_service_model("DPS"@, StartMode::Demand),
            configure_service_model("TrkWks"@, StartMode::Demand),
            configure_service_model("MapsBroker"@, StartMode::Demand),
            configure_service_model("iphlpsvc"@, StartMode::Demand),
            configure_service_model("WSearch"@, StartMode::Disabled),
            configure_service_model("TabletInputService"@, StartMode::Disabled),
            configure_service_model("WMPNetworkSvc"@, StartMode::Disabled),
            configure_service_model("Fax"@, StartMode::Disabled),
        ],
    }
}

pub fn step_configure_services() -> (s: Step)
    ensures
        s@ == configure_services_model(),
{
    let mut directives: Vec<Directive> = Vec::new();
    directives.push(configure_service("LanmanServer", StartMode::Demand));
    directives.push(configure_service("CryptSvc", StartMode::Demand));
    directives.push(configure_service("LanmanWorkstation", StartMode::Demand));
    directives.push(configure_service("DusmSvc", StartMode::Demand));
    directives.push(configure_service("DiagTrack", StartMode::Demand));
    directives.push(configure_service("StiSvc", StartMode::Demand));
    directives.push(configure_service("BITS", StartMode::Demand));
    directives.push(configure_service("DPS", StartMode::Demand));
    directives.push(configure_service("TrkWks", StartMode::Demand));
    directives.push(configure_service("MapsBroker", StartMode::Demand));
    directives.push(configure_service("iphlpsvc", StartMode::Demand));
    directives.push(configure_service("WSearch", StartMode::Disabled));
    directives.push(configure_service("TabletInputService", StartMode::Disabled));
    directives.push(configure_service("WMPNetworkSvc", StartMode::Disabled));
    directives.push(configure_service("Fax", StartMode::Disabled));
    let s = Step { name: "Service Configuration".to_owned(), directives };
    proof {
        assert(s@.directives =~= configure_services_model().directives);
        assert(s@ =~= configure_services_model());
    }
    s
}

/// Writes the privacy-related registry values, each strict.
pub open spec fn privacy_settings_model() -> StepModel {
    StepModel {
        name: "Privacy Settings"@,
        directives: seq![
            reg_add_model(
                "HKLM\\Software\\Policies\\Microsoft\\Windows\\AppPrivacy"@,
                "LetAppsRunInBackground"@,
                "REG_DWORD"@,
                "2"@,
            ),
            reg_add_model(
                "HKCU\\SOFTWARE\\Microsoft\\Windows\\CurrentVersion\\Notifications\\Settings"@,
                "NOC_GLOBAL_SETTING_ALLOW_TOASTS_ABOVE_LOCK"@,
                "REG_DWORD"@,
                "1"@,
            ),
            reg_add_model(
                "HKCU\\SOFTWARE\\Microsoft\\Windows\\CurrentVersion\\Notifications\\Settings"@,
                "NOC_GLOBAL_SETTING_ALLOW_CRITICAL_TOASTS_ABOVE_LOCK"@,
                "REG_DWORD"@,
                "1"@,
            ),
            reg_add_model(
                "HKCU\\Software\\Microsoft\\Windows\\CurrentVersion\\ContentDeliveryManager"@,
                "SubscribedContent-310093Enabled"@,
                "REG_DWORD"@,
                "1"@,
            ),
            reg_add_model(
                "HKLM\\SOFTWARE\\Policies\\Microsoft\\Windows\\Explorer"@,
                "HideRecentlyaddedApps"@,
                "REG_DWORD"@,
                "0"@,
            ),
            reg_add_model(
                "HKCU\\Software\\Microsoft\\Windows\\CurrentVersion\\Explorer"@,
                "EnableAutoTray"@,
                "REG_DWORD"@,
                "1"@,
            ),
            reg_add_model(
                "HKCU\\Software\\Microsoft\\GameBar"@,
                "UseNexusForGameBarEnabled"@,
                "REG_DWORD"@,
                "0"@,
            ),
            reg_add_model(
                "HKCU\\Software\\Microsoft\\Windows\\CurrentVersion\\GameDVR"@,
                "AppCaptureEnabled"@,
                "REG_DWORD"@,
                "1"@,
            ),
            reg_add_model(
                "HKEY_CURRENT_USER\\Software\\Microsoft\\Windows\\CurrentVersion\\Explorer\\Advanced"@,
                "ShowCopilotButton"@,
                "REG_DWORD"@,
                "0"@,
            ),
            reg_add_model(
                "HKCU\\Software\\Microsoft\\Windows\\CurrentVersion\\Explorer\\Advanced"@,
                "TaskbarDa"@,
                "REG_DWORD"@,
                "0"@,
            ),
            reg_add_model(
                "HKLM\\SOFTWARE\\Policies\\Microsoft\\Windows\\Widgets"@,
                "AllowWidgets"@,
                "REG_DWORD"@,
                "0"@,
            ),
            reg_add_model(
                "HKLM\\SOFTWARE\\Policies\\Microsoft\\Dsh"@,
                "AllowNewsAndInterests"@,
                "REG_DWORD"@,
                "0"@,
            ),
        ],
    }
}

pub fn step_privacy_settings() -> (s: Step)
    ensures
        s@ == privacy_settings_model(),
{
    let mut directives: Vec<Directive> = Vec::new();
    directives.push(
        reg_add(
            "HKLM\\Software\\Policies\\Microsoft\\Windows\\AppPrivacy",
            "LetAppsRunInBackground",
            "REG_DWORD",
            "2",
        ),
    );
    directives.push(
        reg_add(
            "HKCU\\SOFTWARE\\Microsoft\\Windows\\CurrentVersion\\Notifications\\Settings",
            "NOC_GLOBAL_SETTING_ALLOW_TOASTS_ABOVE_LOCK",
            "REG_DWORD",
            "1",
        ),
    );
    directives.push(
        reg_add(
            "HKCU\\SOFTWARE\\Microsoft\\Windows\\CurrentVersion\\Notifications\\Settings",
            "NOC_GLOBAL_SETTING_ALLOW_CRITICAL_TOASTS_ABOVE_LOCK",
            "REG_DWORD",
            "1",
        ),
    );
    directives.push(
        reg_add(
            "HKCU\\Software\\Microsoft\\Windows\\CurrentVersion\\ContentDeliveryManager",
            "SubscribedContent-310093Enabled",
            "REG_DWORD",
            "1",
        ),
    );
    directives.push(
        reg_add(
            "HKLM\\SOFTWARE\\Policies\\Microsoft\\Windows\\Explorer",
            "HideRecentlyaddedApps",
            "REG_DWORD",
            "0",
        ),
    );
    directives.push(
        reg_add(
            "HKCU\\Software\\Microsoft\\Windows\\CurrentVersion\\Explorer",
            "EnableAutoTray",
            "REG_DWORD",
            "1",
        ),
    );
    directives.push(
        reg_add("HKCU\\Software\\Microsoft\\GameBar", "UseNexusForGameBarEnabled", "REG_DWORD", "0"),
    );
    directives.push(
        reg_add(
            "HKCU\\Software\\Microsoft\\Windows\\CurrentVersion\\GameDVR",
            "AppCaptureEnabled",
            "REG_DWORD",
            "1",
        ),
    );
    directives.push(
        reg_add(
            "HKEY_CURRENT_USER\\Software\\Microsoft\\Windows\\CurrentVersion\\Explorer\\Advanced",
            "ShowCopilotButton",
            "REG_DWORD",
            "0",
        ),
    );
    directives.push(
        reg_add(
            "HKCU\\Software\\Microsoft\\Windows\\CurrentVersion\\Explorer\\Advanced",
            "TaskbarDa",
            "REG_DWORD",
            "0",
        ),
    );
    directives.push(
        reg_add("HKLM\\SOFTWARE\\Policies\\Microsoft\\Windows\\Widgets", "AllowWidgets", "REG_DWORD", "0"),
    );
    directives.push(
        reg_add("HKLM\\SOFTWARE\\Policies\\Microsoft\\Dsh", "AllowNewsAndInterests", "REG_DWORD", "0"),
    );
    let s = Step { name: "Privacy Settings".to_owned(), directives };
    proof {
        assert(s@.directives =~= privacy_settings_model().directives);
        assert(s@ =~= privacy_settings_model());
    }
    s
}

/// Disables data analysis for the system's AI features, for both the
/// user and the machine policy hive.
pub open spec fn disable_windows_ai_model() -> StepModel {
    StepModel {
        name: "Disabling Windows AI"@,
        directives: seq![
            reg_add_model(
                "HKCU\\Software\\Policies\\Microsoft\\Windows\\WindowsAI"@,
                "DisableAIDataAnalysis"@,
                "REG_DWORD"@,
                "1"@,
            ),
            reg_add_model(
                "HKLM\\Software\\Policies\\Microsoft\\Windows\\WindowsAI"@,
                "DisableAIDataAnalysis"@,
                "REG_DWORD"@,
                "1"@,
            ),
        ],
    }
}

pub fn step_disable_windows_ai() -> (s: Step)
    ensures
        s@ == disable_windows_ai_model(),
{
    let mut directives: Vec<Directive> = Vec::new();
    directives.push(
        reg_add(
            "HKCU\\Software\\Policies\\Microsoft\\Windows\\WindowsAI",
            "DisableAIDataAnalysis",
            "REG_DWORD",
            "1",
        ),
    );
    directives.push(
        reg_add(
            "HKLM\\Software\\Policies\\Microsoft\\Windows\\WindowsAI",
            "DisableAIDataAnalysis",
            "REG_DWORD",
            "1",
        ),
    );
    let s = Step { name: "Disabling Windows AI".to_owned(), directives };
    proof {
        assert(s@.directives =~= disable_windows_ai_model().directives);
        assert(s@ =~= disable_windows_ai_model());
    }
    s
}

/// Queries the Recall feature's state with captured output and disables
/// the feature only when the query's output marks it as enabled.
pub open spec fn disable_recall_model() -> StepModel {
    StepModel {
        name: "Verify and disable Recall"@,
        directives: seq![
            DirectiveModel::Probe {
                query: CmdModel {
                    program: "Dism"@,
                    args: seq!["/Online"@, "/Get-FeatureInfo"@, "/FeatureName:Recall"@, "/English"@],
                },
                marker: Some("Enabled"@),
                guarded: seq![
                    InvocationModel {
                        cmd: CmdModel {
                            program: "Dism"@,
                            args: seq![
                                "/Online"@,
                                "/Disable-Feature"@,
                                "/FeatureName:Recall"@,
                                "/NoRestart"@,
                            ],
                        },
                        on_failure: OnFailure::Abort,
                    },
                ],
            },
        ],
    }
}

pub fn step_disable_recall() -> (s: Step)
    ensures
        s@ == disable_recall_model(),
{
    let query = cmd4("Dism", "/Online", "/Get-FeatureInfo", "/FeatureName:Recall", "/English");
    let mut guarded: Vec<Invocation> = Vec::new();
    guarded.push(
        Invocation {
            cmd: cmd4("Dism", "/Online", "/Disable-Feature", "/FeatureName:Recall", "/NoRestart"),
            on_failure: OnFailure::Abort,
        },
    );
    let probe = Directive::Probe { query, marker: Some("Enabled".to_owned()), guarded };
    let mut directives: Vec<Directive> = Vec::new();
    directives.push(probe);
    let s = Step { name: "Verify and disable Recall".to_owned(), directives };
    proof {
        assert(s@.directives[0]->Probe_guarded =~= disable_recall_model().directives[0]
            ->Probe_guarded);
        assert(s@.directives[0] =~= disable_recall_model().directives[0]);
        assert(s@.directives =~= disable_recall_model().directives);
        assert(s@ =~= disable_recall_model());
    }
    s
}

/// Disables Cortana and web-backed search through the registry, strict.
pub open spec fn search_cortana_model() -> StepModel {
    StepModel {
        name: "Search Configuration"@,
        directives: seq![
            reg_add_model(
                "HKLM\\SOFTWARE\\Policies\\Microsoft\\Windows\\Windows Search"@,
                "AllowCortana"@,
                "REG_DWORD"@,
                "0"@,
            ),
            reg_add_model(
                "HKCU\\SOFTWARE\\Microsoft\\Windows\\CurrentVersion\\Search"@,
                "CortanaEnabled"@,
                "REG_DWORD"@,
                "0"@,
            ),
            reg_add_model(
                "HKCU\\SOFTWARE\\Microsoft\\Windows\\CurrentVersion\\Search"@,
                "BingSearchEnabled"@,
                "REG_DWORD"@,
                "0"@,
            ),
        ],
    }
}

pub fn step_search_cortana() -> (s: Step)
    ensures
        s@ == search_cortana_model(),
{
    let mut directives: Vec<Directive> = Vec::new();
    directives.push(
        reg_add(
            "HKLM\\SOFTWARE\\Policies\\Microsoft\\Windows\\Windows Search",
            "AllowCortana",
            "REG_DWORD",
            "0",
        ),
    );
    directives.push(
        reg_add(
            "HKCU\\SOFTWARE\\Microsoft\\Windows\\CurrentVersion\\Search",
            "CortanaEnabled",
            "REG_DWORD",
            "0",
        ),
    );
    directives.push(
        reg_add(
            "HKCU\\SOFTWARE\\Microsoft\\Windows\\CurrentVersion\\Search",
            "BingSearchEnabled",
            "REG_DWORD",
            "0",
        ),
    );
    let s = Step { name: "Search Configuration".to_owned(), directives };
    proof {
        assert(s@.directives =~= search_cortana_model().directives);
        assert(s@ =~= search_cortana_model());
    }
    s
}

/// One tolerated registry deletion: `reg delete <prefix><package> /f`.
pub open spec fn package_delete_model(prefix: Seq<char>, package: Seq<char>) -> DirectiveModel {
    tolerant_model("reg"@, seq!["delete"@, prefix + package, "/f"@])
}

fn package_delete(prefix: &str, package: &str) -> (d: Directive)
    ensures
        d@ == package_delete_model(prefix@, package@),
{
    let mut path = prefix.to_owned();
    path.append(package);
    tolerant(cmd3("reg", "delete", path.as_str(), "/f"))
}

/// The three contract registrations deleted for one leftover package.
pub open spec fn package_cleanup_model(package: Seq<char>) -> Seq<DirectiveModel> {
    seq![
        package_delete_model("HKCR\\Extensions\\ContractId\\Windows.BackgroundTasks\\PackageId\\"@, package),
        package_delete_model("HKCR\\Extensions\\ContractId\\Windows.Launch\\PackageId\\"@, package),
        package_delete_model("HKCR\\Extensions\\ContractId\\Windows.Protocol\\PackageId\\"@, package),
    ]
}

fn push_package_cleanup(directives: &mut Vec<Directive>, package: &str)
    ensures
        final(directives).deep_view() == old(directives).deep_view() + package_cleanup_model(
            package@,
        ),
{
    directives.push(
        package_delete("HKCR\\Extensions\\ContractId\\Windows.BackgroundTasks\\PackageId\\", package),
    );
    directives.push(
        package_delete("HKCR\\Extensions\\ContractId\\Windows.Launch\\PackageId\\", package),
    );
    directives.push(
        package_delete("HKCR\\Extensions\\ContractId\\Windows.Protocol\\PackageId\\", package),
    );
    proof {
        assert(directives.deep_view() =~= old(directives).deep_view() + package_cleanup_model(
            package@,
        ));
    }
}

/// Deletes the leftover contract registrations of known stale packages;
/// every deletion is tolerated.
pub open spec fn clean_registry_model() -> StepModel {
    StepModel {
        name: "Registry Cleaner"@,
        directives: package_cleanup_model(
            "46928bounde.EclipseManager_2.2.4.51_neutral__a5h4egax66k6y"@,
        ) + package_cleanup_model(
            "ActiproSoftwareLLC.562882FEEB491_2.6.18.18_neutral__24pqs290vpjk0"@,
        ) + package_cleanup_model(
            "Microsoft.MicrosoftOfficeHub_17.7909.7600.0_x64__8wekyb3d8bbwe"@,
        ) + package_cleanup_model(
            "Microsoft.PPIProjection_10.0.15063.0_neutral_neutral_cw5n1h2txyewy"@,
        ) + package_cleanup_model(
            "Microsoft.XboxGameCallableUI_1000.15063.0.0_neutral_neutral_cw5n1h2txyewy"@,
        ) + package_cleanup_model(
            "Microsoft.XboxGameCallableUI_1000.16299.15.0_neutral_neutral_cw5n1h2txyewy"@,
        ),
    }
}

pub fn step_clean_registry() -> (s: Step)
    ensures
        s@ == clean_registry_model(),
{
    let mut directives: Vec<Directive> = Vec::new();
    push_package_cleanup(&mut directives, "46928bounde.EclipseManager_2.2.4.51_neutral__a5h4egax66k6y");
    push_package_cleanup(
        &mut directives,
        "ActiproSoftwareLLC.562882FEEB491_2.6.18.18_neutral__24pqs290vpjk0",
    );
    push_package_cleanup(
        &mut directives,
        "Microsoft.MicrosoftOfficeHub_17.7909.7600.0_x64__8wekyb3d8bbwe",
    );
    push_package_cleanup(
        &mut directives,
        "Microsoft.PPIProjection_10.0.15063.0_neutral_neutral_cw5n1h2txyewy",
    );
    push_package_cleanup(
        &mut directives,
        "Microsoft.XboxGameCallableUI_1000.15063.0.0_neutral_neutral_cw5n1h2txyewy",
    );
    push_package_cleanup(
        &mut directives,
        "Microsoft.XboxGameCallableUI_1000.16299.15.0_neutral_neutral_cw5n1h2txyewy",
    );
    let s = Step { name: "Registry Cleaner".to_owned(), directives };
    proof {
        assert(s@.directives =~= clean_registry_model().directives);
        assert(s@ =~= clean_registry_model());
    }
    s
}

/// Turns off transparency, full-window dragging and the menu delay, and
/// blanks the shell-extension class that slows folder views.
pub open spec fn graphics_optimization_model() -> StepModel {
    StepModel {
        name: "Graphics Optimizations"@,
        directives: seq![
            reg_add_model(
                "HKCU\\SOFTWARE\\Microsoft\\Windows\\CurrentVersion\\Themes\\Personalize"@,
                "EnableTransparency"@,
                "REG_DWORD"@,
                "0"@,
            ),
            reg_add_model("HKCU\\Control Panel\\Desktop"@, "DragFullWindows"@, "REG_SZ"@, "0"@),
            reg_add_model("HKCU\\Control Panel\\Desktop"@, "MenuShowDelay"@, "REG_SZ"@, "0"@),
            strict_model(
                "reg"@,
                seq![
                    "add"@,
                    "HKCU\\SOFTWARE\\CLASSES\\CLSID\\{86ca1aa0-34aa-4e8b-a509-50c905bae2a2}\\InprocServer32"@,
                    "/ve"@,
                    "/t"@,
                    "REG_SZ"@,
                    "/d"@,
                    ""@,
                    "/f"@,
                ],
            ),
        ],
    }
}

pub fn step_graphics_optimization() -> (s: Step)
    ensures
        s@ == graphics_optimization_model(),
{
    let mut directives: Vec<Directive> = Vec::new();
    directives.push(
        reg_add(
            "HKCU\\SOFTWARE\\Microsoft\\Windows\\CurrentVersion\\Themes\\Personalize",
            "EnableTransparency",
            "REG_DWORD",
            "0",
        ),
    );
    directives.push(reg_add("HKCU\\Control Panel\\Desktop", "DragFullWindows", "REG_SZ", "0"));
    directives.push(reg_add("HKCU\\Control Panel\\Desktop", "MenuShowDelay", "REG_SZ", "0"));
    directives.push(
        strict(
            cmd8(
                "reg",
                "add",
                "HKCU\\SOFTWARE\\CLASSES\\CLSID\\{86ca1aa0-34aa-4e8b-a509-50c905bae2a2}\\InprocServer32",
                "/ve",
                "/t",
                "REG_SZ",
                "/d",
                "",
                "/f",
            ),
        ),
    );
    let s = Step { name: "Graphics Optimizations".to_owned(), directives };
    proof {
        assert(s@.directives =~= graphics_optimization_model().directives);
        assert(s@ =~= graphics_optimization_model());
    }
    s
}

/// Kills the shell (tolerated), waits, restarts it strictly, waits again.
pub open spec fn restart_explorer_model() -> StepModel {
    StepModel {
        name: "Restarting Explorer"@,
        directives: seq![
            tolerant_model("taskkill"@, seq!["/f"@, "/im"@, "explorer.exe"@]),
            DirectiveModel::Pause { millis: 3000u64 },
            strict_model("explorer.exe"@, Seq::empty()),
            DirectiveModel::Pause { millis: 2000u64 },
        ],
    }
}

pub fn step_restart_explorer() -> (s: Step)
    ensures
        s@ == restart_explorer_model(),
{
    let mut directives: Vec<Directive> = Vec::new();
    directives.push(tolerant(cmd3("taskkill", "/f", "/im", "explorer.exe")));
    directives.push(Directive::Pause { millis: 3000 });
    directives.push(strict(cmd0("explorer.exe")));
    directives.push(Directive::Pause { millis: 2000 });
    let s = Step { name: "Restarting Explorer".to_owned(), directives };
    proof {
        assert(s@.directives =~= restart_explorer_model().directives);
        assert(s@ =~= restart_explorer_model());
    }
    s
}

/// Points each network interface at fixed DNS servers, strict.
pub open spec fn network_config_model() -> StepModel {
    StepModel {
        name: "Network Configuration"@,
        directives: seq![
            strict_model(
                "netsh"@,
                seq![
                    "interface"@,
                    "ipv4"@,
                    "set"@,
                    "dnsservers"@,
                    "Ethernet"@,
                    "static"@,
                    "1.1.1.1"@,
                    "primary"@,
                ],
            ),
            strict_model(
                "netsh"@,
                seq!["interface"@, "ipv4"@, "add"@, "dnsservers"@, "Ethernet"@, "1.0.0.1"@, "index=2"@],
            ),
            strict_model(
                "netsh"@,
                seq![
                    "interface"@,
                    "ipv4"@,
                    "set"@,
                    "dnsservers"@,
                    "Wi-Fi"@,
                    "static"@,
                    "1.1.1.1"@,
                    "primary"@,
                ],
            ),
            strict_model(
                "netsh"@,
                seq!["interface"@, "ipv4"@, "add"@, "dnsservers"@, "Wi-Fi"@, "1.0.0.1"@, "index=2"@],
            ),
        ],
    }
}

pub fn step_network_config() -> (s: Step)
    ensures
        s@ == network_config_model(),
{
    let mut directives: Vec<Directive> = Vec::new();
    directives.push(
        strict(
            cmd8("netsh", "interface", "ipv4", "set", "dnsservers", "Ethernet", "static", "1.1.1.1", "primary"),
        ),
    );
    directives.push(
        strict(cmd7("netsh", "interface", "ipv4", "add", "dnsservers", "Ethernet", "1.0.0.1", "index=2")),
    );
    directives.push(
        strict(
            cmd8("netsh", "interface", "ipv4", "set", "dnsservers", "Wi-Fi", "static", "1.1.1.1", "primary"),
        ),
    );
    directives.push(
        strict(cmd7("netsh", "interface", "ipv4", "add", "dnsservers", "Wi-Fi", "1.0.0.1", "index=2")),
    );
    let s = Step { name: "Network Configuration".to_owned(), directives };
    proof {
        assert(s@.directives =~= network_config_model().directives);
        assert(s@ =~= network_config_model());
    }
    s
}

/// Flushes the DNS cache and sets the global TCP tuning switches, strict.
pub open spec fn tcp_optimization_model() -> StepModel {
    StepModel {
        name: "TCP/IP Optimizations"@,
        directives: seq![
            strict_model("ipconfig"@, seq!["/flushdns"@]),
            strict_model("netsh"@, seq!["int"@, "tcp"@, "set"@, "global"@, "rss=enabled"@]),
            strict_model("netsh"@, seq!["int"@, "tcp"@, "set"@, "global"@, "autotuninglevel=normal"@]),
            strict_model("netsh"@, seq!["int"@, "tcp"@, "set"@, "global"@, "dca=enabled"@]),
            strict_model("netsh"@, seq!["int"@, "tcp"@, "set"@, "global"@, "ecncapability=enabled"@]),
            strict_model("netsh"@, seq!["int"@, "tcp"@, "set"@, "global"@, "initialrto=1000"@]),
        ],
    }
}

pub fn step_tcp_optimization() -> (s: Step)
    ensures
        s@ == tcp_optimization_model(),
{
    let mut directives: Vec<Directive> = Vec::new();
    directives.push(strict(cmd1("ipconfig", "/flushdns")));
    directives.push(strict(cmd5("netsh", "int", "tcp", "set", "global", "rss=enabled")));
    directives.push(strict(cmd5("netsh", "int", "tcp", "set", "global", "autotuninglevel=normal")));
    directives.push(strict(cmd5("netsh", "int", "tcp", "set", "global", "dca=enabled")));
    directives.push(strict(cmd5("netsh", "int", "tcp", "set", "global", "ecncapability=enabled")));
    directives.push(strict(cmd5("netsh", "int", "tcp", "set", "global", "initialrto=1000")));
    let s = Step { name: "TCP/IP Optimizations".to_owned(), directives };
    proof {
        assert(s@.directives =~= tcp_optimization_model().directives);
        assert(s@ =~= tcp_optimization_model());
    }
    s
}

/// Points the time service at a public pool and restarts it, strict.
pub open spec fn time_sync_model() -> StepModel {
    StepModel {
        name: "Time Synchronization"@,
        directives: seq![
            strict_model(
                "w32tm"@,
                seq![
                    "/config"@,
                    "/manualpeerlist:pool.ntp.org"@,
                    "/syncfromflags:manual"@,
                    "/reliable:yes"@,
                    "/update"@,
                ],
            ),
            strict_model("net"@, seq!["stop"@, "w32time"@]),
            strict_model("net"@, seq!["start"@, "w32time"@]),
        ],
    }
}

pub fn step_time_sync() -> (s: Step)
    ensures
        s@ == time_sync_model(),
{
    let mut directives: Vec<Directive> = Vec::new();
    directives.push(
        strict(
            cmd5(
                "w32tm",
                "/config",
                "/manualpeerlist:pool.ntp.org",
                "/syncfromflags:manual",
                "/reliable:yes",
                "/update",
            ),
        ),
    );
    directives.push(strict(cmd2("net", "stop", "w32time")));
    directives.push(strict(cmd2("net", "start", "w32time")));
    let s = Step { name: "Time Synchronization".to_owned(), directives };
    proof {
        assert(s@.directives =~= time_sync_model().directives);
        assert(s@ =~= time_sync_model());
    }
    s
}

/// Turns off telemetry and content-delivery suggestions, strict.
pub open spec fn disable_telemetry_model() -> StepModel {
    StepModel {
        name: "Disabling Telemetry"@,
        directives: seq![
            reg_add_model(
                "HKLM\\SOFTWARE\\Policies\\Microsoft\\Windows\\DataCollection"@,
                "AllowTelemetry"@,
                "REG_DWORD"@,
                "0"@,
            ),
            reg_add_model(
                "HKCU\\SOFTWARE\\Microsoft\\Windows\\CurrentVersion\\ContentDeliveryManager"@,
                "SoftLandingEnabled"@,
                "REG_DWORD"@,
                "0"@,
            ),
            reg_add_model(
                "HKCU\\SOFTWARE\\Microsoft\\Windows\\CurrentVersion\\ContentDeliveryManager"@,
                "SilentInstalledAppsEnabled"@,
                "REG_DWORD"@,
                "0"@,
            ),
        ],
    }
}

pub fn step_disable_telemetry() -> (s: Step)
    ensures
        s@ == disable_telemetry_model(),
{
    let mut directives: Vec<Directive> = Vec::new();
    directives.push(
        reg_add(
            "HKLM\\SOFTWARE\\Policies\\Microsoft\\Windows\\DataCollection",
            "AllowTelemetry",
            "REG_DWORD",
            "0",
        ),
    );
    directives.push(
        reg_add(
            "HKCU\\SOFTWARE\\Microsoft\\Windows\\CurrentVersion\\ContentDeliveryManager",
            "SoftLandingEnabled",
            "REG_DWORD",
            "0",
        ),
    );
    directives.push(
        reg_add(
            "HKCU\\SOFTWARE\\Microsoft\\Windows\\CurrentVersion\\ContentDeliveryManager",
            "SilentInstalledAppsEnabled",
            "REG_DWORD",
            "0",
        ),
    );
    let s = Step { name: "Disabling Telemetry".to_owned(), directives };
    proof {
        assert(s@.directives =~= disable_telemetry_model().directives);
        assert(s@ =~= disable_telemetry_model());
    }
    s
}

/// Rebuilds the update cache around a stop/start of the update service
/// (the stop and start strict, the directory swap tolerated), clears the
/// temporary directories (tolerated), and tightens filesystem behaviour.
pub open spec fn system_cleanup_model() -> StepModel {
    StepModel {
        name: "System Cleanup"@,
        directives: seq![
            strict_model("net"@, seq!["stop"@, "wuauserv"@]),
            tolerant_model("rd"@, seq!["/s"@, "/q"@, "C:\\Windows\\SoftwareDistribution"@]),
            tolerant_model("md"@, seq!["C:\\Windows\\SoftwareDistribution"@]),
            strict_model("net"@, seq!["start"@, "wuauserv"@]),
            tolerant_model("del"@, seq!["/s"@, "/f"@, "/q"@, "C:\\Windows\\Temp\\*.*"@]),
            tolerant_model("del"@, seq!["/s"@, "/f"@, "/q"@, "C:\\WINDOWS\\Prefetch\\*.*"@]),
            tolerant_model("del"@, seq!["/s"@, "/f"@, "/q"@, "%TEMP%\\*.*"@]),
            strict_model("fsutil"@, seq!["behavior"@, "set"@, "memoryusage"@, "2"@]),
            reg_add_model(
                "HKLM\\SYSTEM\\CurrentControlSet\\Control\\FileSystem"@,
                "NTFSDisableLastAccessUpdate"@,
                "REG_DWORD"@,
                "1"@,
            ),
        ],
    }
}

pub fn step_system_cleanup() -> (s: Step)
    ensures
        s@ == system_cleanup_model(),
{
    let mut directives: Vec<Directive> = Vec::new();
    directives.push(strict(cmd2("net", "stop", "wuauserv")));
    directives.push(tolerant(cmd3("rd", "/s", "/q", "C:\\Windows\\SoftwareDistribution")));
    directives.push(tolerant(cmd1("md", "C:\\Windows\\SoftwareDistribution")));
    directives.push(strict(cmd2("net", "start", "wuauserv")));
    directives.push(tolerant(cmd4("del", "/s", "/f", "/q", "C:\\Windows\\Temp\\*.*")));
    directives.push(tolerant(cmd4("del", "/s", "/f", "/q", "C:\\WINDOWS\\Prefetch\\*.*")));
    directives.push(tolerant(cmd4("del", "/s", "/f", "/q", "%TEMP%\\*.*")));
    directives.push(strict(cmd4("fsutil", "behavior", "set", "memoryusage", "2")));
    directives.push(
        reg_add(
            "HKLM\\SYSTEM\\CurrentControlSet\\Control\\FileSystem",
            "NTFSDisableLastAccessUpdate",
            "REG_DWORD",
            "1",
        ),
    );
    let s = Step { name: "System Cleanup".to_owned(), directives };
    proof {
        assert(s@.directives =~= system_cleanup_model().directives);
        assert(s@ =~= system_cleanup_model());
    }
    s
}

/// The fixed, ordered catalog: every step of the pipeline, in the order
/// the run executes them.
pub open spec fn catalog_model() -> Seq<StepModel> {
    seq![
        power_optimization_model(),
        configure_services_model(),
        privacy_settings_model(),
        disable_windows_ai_model(),
        disable_recall_model(),
        search_cortana_model(),
        clean_registry_model(),
        graphics_optimization_model(),
        restart_explorer_model(),
        network_config_model(),
        tcp_optimization_model(),
        time_sync_model(),
        disable_telemetry_model(),
        system_cleanup_model(),
    ]
}

/// Builds the full ordered catalog.
pub fn optimization_catalog() -> (catalog: Vec<Step>)
    ensures
        catalog.deep_view() == catalog_model(),
{
    let mut catalog: Vec<Step> = Vec::new();
    catalog.push(step_power_optimization());
    catalog.push(step_configure_services());
    catalog.push(step_privacy_settings());
    catalog.push(step_disable_windows_ai());
    catalog.push(step_disable_recall());
    catalog.push(step_search_cortana());
    catalog.push(step_clean_registry());
    catalog.push(step_graphics_optimization());
    catalog.push(step_restart_explorer());
    catalog.push(step_network_config());
    catalog.push(step_tcp_optimization());
    catalog.push(step_time_sync());
    catalog.push(step_disable_telemetry());
    catalog.push(step_system_cleanup());
    proof {
        assert(catalog.deep_view() =~= catalog_model());
    }
    catalog
}

} // verus!
