use std::sync::Mutex;

use fontlift::cli::{
    cleanup_parts, describe_scope_chain, json_render, render_lines, render_list_output,
    scope_for, scope_order, settle_uninstall, to_core_strictness, uninstall_across_scopes,
    ListRender, ListRenderOptions, OperationOptions, OutputOptions, ValidationStrictness,
};
use fontlift::doctor::{
    action_line, doctor_step, progress_line, step_outcome, summary, tally, DoctorStep,
};
use fontlift::journal::{ActionRecoveryResult, JournalAction, RecoveryPolicy};
use fontlift::validation_ext;
use fontlift::{
    FontError, FontManager, FontResult, FontScope, FontliftFontFaceInfo, FontliftFontSource,
};

fn sample_font(path: &str, postscript: &str) -> FontliftFontFaceInfo {
    FontliftFontFaceInfo::new(
        FontliftFontSource::new(path.to_string()),
        postscript.to_string(),
        postscript.to_string(),
        "Family".to_string(),
        "Regular".to_string(),
    )
}

fn names_as_json(fonts: &Vec<FontliftFontFaceInfo>) -> Result<String, String> {
    let names: Vec<String> = fonts
        .iter()
        .map(|f| format!("\"{}\"", f.postscript_name))
        .collect();
    Ok(format!("[{}]", names.join(",")))
}

#[test]
fn list_renders_json_sorted_and_deduped() {
    let fonts = vec![
        sample_font("/fonts/Zeta.ttf", "Zeta"),
        sample_font("/fonts/Alpha.ttf", "Alpha-Regular"),
        sample_font("/fonts/Alpha.ttf", "Alpha-Regular"), // duplicate
        sample_font("/fonts/Beta.ttf", "Beta-Bold"),
    ];

    let opts = ListRenderOptions {
        show_path: true,
        show_name: true,
        sorted: true,
        json: true,
    };

    let output = render_list_output(fonts, opts, names_as_json).expect("render");

    let json = match output {
        ListRender::Json(s) => s,
        _ => panic!("expected json output"),
    };

    assert_eq!(
        json, "[\"Alpha-Regular\",\"Beta-Bold\",\"Zeta\"]",
        "sorted deterministically with duplicates removed"
    );
}

#[test]
fn list_renders_lines_sorted_and_deduped_by_default() {
    let fonts = vec![
        sample_font("/fonts/Beta.ttf", "Beta-Bold"),
        sample_font("/fonts/Alpha.ttf", "Alpha-Regular"),
        sample_font("/fonts/Alpha.ttf", "Alpha-Regular"),
    ];

    let opts = ListRenderOptions {
        show_path: true,
        show_name: false,
        sorted: false,
        json: false,
    };

    let output = render_list_output(fonts, opts, names_as_json).expect("render");
    let lines = match output {
        ListRender::Lines(lines) => lines,
        _ => panic!("expected line output"),
    };

    assert_eq!(
        lines,
        vec![
            "/fonts/Alpha.ttf".to_string(),
            "/fonts/Beta.ttf".to_string()
        ],
        "dedupes identical paths and sorts deterministically"
    );
}

#[test]
fn list_renders_name_only_sorted_by_default() {
    let fonts = vec![
        sample_font("/fonts/Delta.ttf", "Delta"),
        sample_font("/fonts/Alpha.ttf", "Alpha-Regular"),
        sample_font("/fonts/Beta.ttf", "Beta-Bold"),
    ];

    let opts = ListRenderOptions {
        show_path: false,
        show_name: true,
        sorted: false,
        json: false,
    };

    let output = render_list_output(fonts, opts, names_as_json).expect("render");
    let lines = match output {
        ListRender::Lines(lines) => lines,
        _ => panic!("expected line output"),
    };

    assert_eq!(
        lines,
        vec![
            "Alpha-Regular".to_string(),
            "Beta-Bold".to_string(),
            "Delta".to_string()
        ],
        "sorts names deterministically even without --sorted"
    );
}

#[test]
fn list_lines_show_what_is_asked_for() {
    let fonts = vec![
        sample_font("/b.ttf", "Zed"),
        sample_font("/a.ttf", "Zed"),
        sample_font("/a.ttf", "Abc"),
    ];
    let both = ListRenderOptions {
        show_path: true,
        show_name: true,
        sorted: false,
        json: false,
    };
    assert_eq!(
        render_lines(&fonts, both),
        vec!["/a.ttf::Abc", "/a.ttf::Zed", "/b.ttf::Zed"]
    );
    let names = ListRenderOptions {
        show_path: false,
        show_name: true,
        sorted: false,
        json: false,
    };
    assert_eq!(render_lines(&fonts, names), vec!["Abc", "Zed", "Zed"]);
    let sorted_names = ListRenderOptions {
        sorted: true,
        ..names
    };
    assert_eq!(render_lines(&fonts, sorted_names), vec!["Abc", "Zed"]);
    let neither = ListRenderOptions {
        show_path: false,
        show_name: false,
        sorted: false,
        json: false,
    };
    assert_eq!(render_lines(&fonts, neither), vec!["/a.ttf", "/a.ttf", "/b.ttf"]);
    let paths = ListRenderOptions {
        show_path: true,
        ..neither
    };
    assert_eq!(render_lines(&fonts, paths), vec!["/a.ttf", "/b.ttf"]);
    assert!(render_lines(&vec![], both).is_empty());
}

#[test]
fn a_failure_to_write_json_is_an_invalid_format_error() {
    let opts = ListRenderOptions {
        show_path: false,
        show_name: false,
        sorted: false,
        json: true,
    };
    let res = render_list_output(vec![sample_font("/a.ttf", "A")], opts, |_fonts| {
        Err("recursion limit".to_string())
    });
    assert!(matches!(
        res,
        Err(FontError::InvalidFormat(m)) if m == "Failed to serialize font list to JSON: recursion limit"
    ));
    assert_eq!(json_render(Ok("[]".to_string())).unwrap(), ListRender::Json("[]".to_string()));
}

#[test]
fn output_options_decide_what_is_printed() {
    let quiet = OutputOptions {
        quiet: true,
        verbose: true,
    };
    assert!(!quiet.should_print());
    assert!(!quiet.should_print_verbose());
    let verbose = OutputOptions {
        quiet: false,
        verbose: true,
    };
    assert!(verbose.should_print());
    assert!(verbose.should_print_verbose());
    let plain = OutputOptions {
        quiet: false,
        verbose: false,
    };
    assert!(plain.should_print());
    assert!(!plain.should_print_verbose());

    let options = OperationOptions::new(true, false, true);
    assert!(options.dry_run);
    assert_eq!(options.output, verbose);
}

#[test]
fn strictness_maps_one_to_one() {
    assert_eq!(
        to_core_strictness(ValidationStrictness::Lenient),
        validation_ext::ValidationStrictness::Lenient
    );
    assert_eq!(
        to_core_strictness(ValidationStrictness::Normal),
        validation_ext::ValidationStrictness::Normal
    );
    assert_eq!(
        to_core_strictness(ValidationStrictness::Paranoid),
        validation_ext::ValidationStrictness::Paranoid
    );
    assert_eq!(ValidationStrictness::default(), ValidationStrictness::Normal);
}

#[test]
fn scopes_are_tried_preferred_first() {
    assert_eq!(scope_order(FontScope::User), [FontScope::User, FontScope::System]);
    assert_eq!(scope_order(FontScope::System), [FontScope::System, FontScope::User]);
    assert_eq!(describe_scope_chain(FontScope::User), "user-level then system-level");
    assert_eq!(describe_scope_chain(FontScope::System), "system-level then user-level");
    assert_eq!(scope_for(true), FontScope::System);
    assert_eq!(scope_for(false), FontScope::User);
    assert_eq!(cleanup_parts(false, false), (true, true));
    assert_eq!(cleanup_parts(true, false), (true, false));
    assert_eq!(cleanup_parts(false, true), (false, true));
}

struct ScopedManager {
    installed_in: Option<FontScope>,
    calls: Mutex<Vec<Option<FontScope>>>,
}

impl FontManager for ScopedManager {
    fn install_font(&self, _source: &FontliftFontSource) -> FontResult<()> {
        Ok(())
    }

    fn uninstall_font(&self, source: &FontliftFontSource) -> FontResult<()> {
        self.calls.lock().unwrap().push(source.scope);
        if source.scope == self.installed_in {
            Ok(())
        } else {
            Err(FontError::FontNotFound(format!("{:?}", source.scope)))
        }
    }

    fn remove_font(&self, _source: &FontliftFontSource) -> FontResult<()> {
        Ok(())
    }

    fn is_font_installed(&self, _source: &FontliftFontSource) -> FontResult<bool> {
        Ok(false)
    }

    fn list_installed_fonts(&self) -> FontResult<Vec<FontliftFontFaceInfo>> {
        Ok(Vec::new())
    }

    fn clear_font_caches(&self, _scope: FontScope) -> FontResult<()> {
        Ok(())
    }

    fn prune_missing_fonts(&self, _scope: FontScope) -> FontResult<usize> {
        Ok(0)
    }
}

#[test]
fn uninstall_by_name_checks_both_scopes() {
    let manager = ScopedManager {
        installed_in: Some(FontScope::System),
        calls: Mutex::new(Vec::new()),
    };
    let used = uninstall_across_scopes(&manager, "/fonts/a.ttf", FontScope::User).unwrap();
    assert_eq!(used, FontScope::System);
    assert_eq!(
        *manager.calls.lock().unwrap(),
        vec![Some(FontScope::User), Some(FontScope::System)]
    );

    let direct = ScopedManager {
        installed_in: Some(FontScope::User),
        calls: Mutex::new(Vec::new()),
    };
    assert_eq!(
        uninstall_across_scopes(&direct, "/fonts/a.ttf", FontScope::User).unwrap(),
        FontScope::User
    );
    assert_eq!(*direct.calls.lock().unwrap(), vec![Some(FontScope::User)]);

    let nowhere = ScopedManager {
        installed_in: None,
        calls: Mutex::new(Vec::new()),
    };
    assert!(matches!(
        uninstall_across_scopes(&nowhere, "/fonts/a.ttf", FontScope::System),
        Err(FontError::FontNotFound(m)) if m == "Some(User)"
    ));
}

#[test]
fn uninstall_outcomes_settle_on_the_first_success_or_the_last_error() {
    let err = |m: &str| FontError::RegistrationFailed(m.to_string());
    assert_eq!(
        settle_uninstall(FontScope::User, Ok(()), None).unwrap(),
        FontScope::User
    );
    assert_eq!(
        settle_uninstall(FontScope::User, Err(err("a")), Some(Ok(()))).unwrap(),
        FontScope::System
    );
    assert!(matches!(
        settle_uninstall(FontScope::System, Err(err("a")), Some(Err(err("b")))),
        Err(FontError::RegistrationFailed(m)) if m == "b"
    ));
    assert!(matches!(
        settle_uninstall(FontScope::System, Err(err("a")), None),
        Err(FontError::RegistrationFailed(m)) if m == "a"
    ));
}

#[test]
fn the_doctor_knows_what_to_do_with_each_action() {
    let copy = JournalAction::CopyFile {
        from: "/a".to_string(),
        to: "/b".to_string(),
    };
    let delete = JournalAction::DeleteFile {
        path: "/a".to_string(),
    };
    let register = JournalAction::RegisterFont {
        path: "/a".to_string(),
        scope: FontScope::User,
    };
    let unregister = JournalAction::UnregisterFont {
        path: "/a".to_string(),
        scope: FontScope::User,
    };
    let clear = JournalAction::ClearCache {
        scope: FontScope::User,
    };
    let (done, unresolved, do_copy, do_delete) = (
        DoctorStep::Done,
        DoctorStep::Unresolved,
        DoctorStep::Copy,
        DoctorStep::Delete,
    );
    let (roll_back, roll_forward, skip) = (
        RecoveryPolicy::RollBack,
        RecoveryPolicy::RollForward,
        RecoveryPolicy::Skip,
    );

    for action in [&copy, &delete, &register, &unregister, &clear] {
        assert_eq!(doctor_step(action, skip, false, false), done);
        assert_eq!(doctor_step(action, skip, true, true), done);
    }
    assert_eq!(doctor_step(&copy, roll_forward, true, true), done);
    assert_eq!(doctor_step(&copy, roll_forward, false, true), done);
    assert_eq!(doctor_step(&copy, roll_forward, true, false), do_copy);
    assert_eq!(doctor_step(&copy, roll_forward, false, false), unresolved);
    assert_eq!(doctor_step(&delete, roll_forward, false, true), do_delete);
    assert_eq!(doctor_step(&delete, roll_forward, false, false), done);
    assert_eq!(doctor_step(&register, roll_forward, true, true), unresolved);
    assert_eq!(doctor_step(&unregister, roll_forward, true, true), unresolved);
    assert_eq!(doctor_step(&clear, roll_forward, false, false), done);
    assert_eq!(doctor_step(&clear, roll_back, false, false), done);
    assert_eq!(doctor_step(&copy, roll_back, true, true), unresolved);
    assert_eq!(doctor_step(&delete, roll_back, true, true), unresolved);

    assert!(matches!(step_outcome(done, None), Ok(true)));
    assert!(matches!(step_outcome(done, Some("ignored")), Ok(true)));
    assert!(matches!(step_outcome(unresolved, None), Ok(false)));
    assert!(matches!(step_outcome(do_copy, None), Ok(true)));
    assert!(matches!(
        step_outcome(do_copy, Some("disk full")),
        Err(FontError::IoError(m)) if m == "disk full"
    ));
    assert!(matches!(
        step_outcome(do_delete, Some("denied")),
        Err(FontError::IoError(m)) if m == "denied"
    ));
}

#[test]
fn the_doctor_sums_up() {
    let result = |success: bool| {
        ActionRecoveryResult::from_outcome(
            JournalAction::ClearCache {
                scope: FontScope::User,
            },
            RecoveryPolicy::Skip,
            &Ok(success),
        )
    };
    let results = vec![result(true), result(false), result(true), result(true)];
    assert_eq!(tally(&results), (3, 1));
    assert_eq!(tally(&vec![]), (0, 0));
    assert_eq!(
        summary(3, 1),
        "⚠️  Recovery completed with 3 success, 1 failure(s)"
    );
    assert_eq!(summary(0, 12), "⚠️  Recovery completed with 0 success, 12 failure(s)");
    assert_eq!(summary(120, 0), "✅ Successfully recovered 120 action(s)");
    assert_eq!(summary(0, 0), "✅ No recovery actions needed");
    assert_eq!(progress_line(1, 3), "  Progress: step 1 of 3");
    assert_eq!(progress_line(0, 10), "  Progress: step 0 of 10");
    assert_eq!(
        action_line(
            2,
            &JournalAction::DeleteFile {
                path: "/x.ttf".to_string()
            }
        ),
        "  [2] Delete /x.ttf"
    );
}
