use ditto::{rehearse, Action, ConversionError, Plan, Surroundings};

fn all_well() -> Surroundings {
    Surroundings {
        input_exists: true,
        input_is_file: true,
        output_is_directory: false,
        directory_created: true,
        exit_code: Some(0),
        generated_exists: true,
        moved: true,
    }
}

fn has_effect(action: &Action) -> bool {
    matches!(
        action,
        Action::CreateDirectories(_) | Action::RunConverter { .. } | Action::Rename { .. }
    )
}

fn is_rename(action: &Action) -> bool {
    matches!(action, Action::Rename { .. })
}

fn is_run(action: &Action) -> bool {
    matches!(action, Action::RunConverter { .. })
}

fn first_failing_check(plan: &Plan, world: &Surroundings) -> Result<(), ConversionError> {
    if !world.input_exists {
        return Err(ConversionError::InputNotFound);
    }
    if !world.input_is_file {
        return Err(ConversionError::InputNotAFile);
    }
    if world.output_is_directory {
        return Err(ConversionError::OutputIsDirectory);
    }
    if plan.output.is_none() || plan.output_dir.is_none() {
        return Err(ConversionError::InvalidOutputPath);
    }
    if !world.directory_created {
        return Err(ConversionError::FilesystemError);
    }
    if plan.input.is_none() {
        return Err(ConversionError::ExternalToolFailed { exit_code: None });
    }
    if world.exit_code != Some(0) {
        return Err(ConversionError::ExternalToolFailed { exit_code: world.exit_code });
    }
    if plan.generated.is_none() || !world.generated_exists {
        return Err(ConversionError::OutputNotProduced);
    }
    if !plan.in_place && !world.moved {
        return Err(ConversionError::FilesystemError);
    }
    Ok(())
}

fn every_world() -> Vec<Surroundings> {
    let mut worlds = Vec::new();
    for bits in 0u32..64 {
        for exit_code in [Some(0), Some(1), Some(-9), None] {
            worlds.push(Surroundings {
                input_exists: bits & 1 != 0,
                input_is_file: bits & 2 != 0,
                output_is_directory: bits & 4 != 0,
                directory_created: bits & 8 != 0,
                exit_code,
                generated_exists: bits & 16 != 0,
                moved: bits & 32 != 0,
            });
        }
    }
    worlds
}

fn some_plans() -> Vec<Plan> {
    vec![
        Plan::new(Some("D/report.docx"), Some("D/out/final.pdf")),
        Plan::new(Some("D/report.docx"), Some("D/out/report.pdf")),
        Plan::new(Some("document.docx"), Some("document.pdf")),
        Plan::new(Some("D/report.docx"), Some("/")),
        Plan::new(Some("D/.."), Some("out/final.pdf")),
        Plan::new(Some(""), Some("")),
        Plan::new(Some("D/my.report.docx"), Some("D/out/final.pdf")),
        Plan::new(Some("D/my.report.docx"), Some("D/out/my.report.pdf")),
        Plan::new(None, Some("D/out/final.pdf")),
        Plan::new(Some("D/report.docx"), None),
        Plan::new(None, None),
    ]
}

#[test]
fn test_docx_to_pdf_invalid_input() {
    let plan = Plan::new(Some("/tmp/work/nonexistent.docx"), Some("/tmp/work/output.pdf"));
    let world = Surroundings { input_exists: false, input_is_file: false, ..all_well() };
    let (asked, result) = rehearse(plan, &world);
    assert!(result.is_err());
    assert_eq!(result, Err(ConversionError::InputNotFound));
    assert_eq!(asked, vec![Action::CheckInputExists]);
}

#[test]
fn test_docx_to_pdf_invalid_output_directory() {
    let plan = Plan::new(Some("/tmp/work/test.docx"), Some("/tmp/work/some_dir"));
    let world = Surroundings { output_is_directory: true, ..all_well() };
    let (asked, result) = rehearse(plan, &world);
    assert!(result.is_err());
    assert_eq!(result, Err(ConversionError::OutputIsDirectory));
    assert_eq!(
        asked,
        vec![
            Action::CheckInputExists,
            Action::CheckInputIsFile,
            Action::CheckOutputIsDirectory,
        ]
    );
}

#[test]
fn missing_input_writes_nothing() {
    for plan in some_plans() {
        for world in every_world() {
            if world.input_exists {
                continue;
            }
            let (asked, result) = rehearse(plan.clone(), &world);
            assert_eq!(result, Err(ConversionError::InputNotFound));
            assert_eq!(asked, vec![Action::CheckInputExists]);
            assert!(!asked.iter().any(has_effect));
        }
    }
}

#[test]
fn directory_as_input_is_refused() {
    for plan in some_plans() {
        for world in every_world() {
            if !world.input_exists || world.input_is_file {
                continue;
            }
            let (asked, result) = rehearse(plan.clone(), &world);
            assert_eq!(result, Err(ConversionError::InputNotAFile));
            assert_eq!(asked.len(), 2);
            assert!(!asked.iter().any(has_effect));
        }
    }
}

#[test]
fn directory_as_output_is_refused_before_the_converter_runs() {
    for plan in some_plans() {
        for world in every_world() {
            if !world.input_exists || !world.input_is_file || !world.output_is_directory {
                continue;
            }
            let (asked, result) = rehearse(plan.clone(), &world);
            assert_eq!(result, Err(ConversionError::OutputIsDirectory));
            assert!(!asked.iter().any(is_run));
            assert!(!asked.iter().any(has_effect));
        }
    }
}

#[test]
fn output_directory_is_created_before_the_converter_runs() {
    let mut runs = 0;
    for plan in some_plans() {
        for world in every_world() {
            let (asked, _) = rehearse(plan.clone(), &world);
            for (i, action) in asked.iter().enumerate() {
                if is_run(action) {
                    runs += 1;
                    assert!(world.directory_created);
                    assert_eq!(
                        asked[i - 1],
                        Action::CreateDirectories(plan.output_dir.clone().unwrap())
                    );
                }
            }
        }
    }
    assert!(runs > 0);
}

#[test]
fn failed_converter_is_reported_with_its_exit_code() {
    let plan = Plan::new(Some("D/report.docx"), Some("D/out/final.pdf"));
    for exit_code in [Some(1), Some(2), Some(-1), Some(255), None] {
        let world = Surroundings { exit_code, ..all_well() };
        let (asked, result) = rehearse(plan.clone(), &world);
        assert_eq!(result, Err(ConversionError::ExternalToolFailed { exit_code }));
        assert_eq!(asked.len(), 5);
        assert!(is_run(&asked[4]));
        assert!(!asked.iter().any(is_rename));
    }
}

#[test]
fn missing_generated_file_is_reported() {
    let plan = Plan::new(Some("D/report.docx"), Some("D/out/final.pdf"));
    let world = Surroundings { generated_exists: false, ..all_well() };
    let (asked, result) = rehearse(plan, &world);
    assert_eq!(result, Err(ConversionError::OutputNotProduced));
    assert_eq!(asked.len(), 6);
    assert_eq!(asked[5], Action::CheckExists("D/out/report.pdf".to_string()));
    assert!(!asked.iter().any(is_rename));
}

#[test]
fn input_without_stem_is_reported_as_nothing_produced() {
    let plan = Plan::new(Some("D/.."), Some("out/final.pdf"));
    let (asked, result) = rehearse(plan, &all_well());
    assert_eq!(result, Err(ConversionError::OutputNotProduced));
    assert_eq!(asked.len(), 5);
    assert!(is_run(&asked[4]));
}

#[test]
fn output_without_parent_is_reported() {
    for output in ["/", ""] {
        let plan = Plan::new(Some("D/report.docx"), Some(output));
        let (asked, result) = rehearse(plan, &all_well());
        assert_eq!(result, Err(ConversionError::InvalidOutputPath));
        assert_eq!(asked.len(), 3);
        assert!(!asked.iter().any(has_effect));
    }
}

#[test]
fn failed_directory_creation_is_reported() {
    let plan = Plan::new(Some("D/report.docx"), Some("D/out/final.pdf"));
    let world = Surroundings { directory_created: false, ..all_well() };
    let (asked, result) = rehearse(plan, &world);
    assert_eq!(result, Err(ConversionError::FilesystemError));
    assert_eq!(asked.len(), 4);
    assert_eq!(asked[3], Action::CreateDirectories("D/out".to_string()));
    assert!(!asked.iter().any(is_run));
}

#[test]
fn failed_move_is_reported() {
    let plan = Plan::new(Some("D/report.docx"), Some("D/out/final.pdf"));
    let world = Surroundings { moved: false, ..all_well() };
    let (asked, result) = rehearse(plan, &world);
    assert_eq!(result, Err(ConversionError::FilesystemError));
    assert_eq!(asked.len(), 7);
    assert!(is_rename(&asked[6]));
}

#[test]
fn generated_file_in_place_is_left_alone() {
    let plan = Plan::new(Some("D/report.docx"), Some("D/out/report.pdf"));
    assert!(plan.in_place);
    for world in every_world() {
        let (asked, result) = rehearse(plan.clone(), &world);
        assert!(!asked.iter().any(is_rename));
        if world.input_exists
            && world.input_is_file
            && !world.output_is_directory
            && world.directory_created
            && world.exit_code == Some(0)
            && world.generated_exists
        {
            assert_eq!(result, Ok(()));
            assert_eq!(asked.len(), 6);
            assert_eq!(asked[5], Action::CheckExists("D/out/report.pdf".to_string()));
        }
    }
}

#[test]
fn renamed_output_end_to_end() {
    let plan = Plan::new(Some("D/report.docx"), Some("D/out/final.pdf"));
    let (asked, result) = rehearse(plan, &all_well());
    assert_eq!(result, Ok(()));
    assert_eq!(
        asked,
        vec![
            Action::CheckInputExists,
            Action::CheckInputIsFile,
            Action::CheckOutputIsDirectory,
            Action::CreateDirectories("D/out".to_string()),
            Action::RunConverter {
                program: "soffice".to_string(),
                arguments: vec![
                    "--headless".to_string(),
                    "--convert-to".to_string(),
                    "pdf".to_string(),
                    "--outdir".to_string(),
                    "D/out".to_string(),
                    "D/report.docx".to_string(),
                ],
            },
            Action::CheckExists("D/out/report.pdf".to_string()),
            Action::Rename {
                from: "D/out/report.pdf".to_string(),
                to: "D/out/final.pdf".to_string(),
            },
        ]
    );
}

#[test]
fn result_is_the_first_failing_check() {
    for plan in some_plans() {
        for world in every_world() {
            let expected = first_failing_check(&plan, &world);
            let (asked, result) = rehearse(plan.clone(), &world);
            assert_eq!(result, expected);
            assert!(!asked.is_empty() && asked.len() <= 7);
            let moved = asked.iter().any(is_rename);
            assert_eq!(moved, asked.len() == 7);
            if moved {
                assert_eq!(result.is_ok(), world.moved);
            }
        }
    }
}

#[test]
fn answers_of_the_surroundings() {
    let world = Surroundings {
        input_exists: true,
        input_is_file: false,
        output_is_directory: true,
        directory_created: false,
        exit_code: Some(3),
        generated_exists: true,
        moved: false,
    };
    assert_eq!(world.answer(ditto::Stage::CheckInputExists), ditto::Event::Observed(true));
    assert_eq!(world.answer(ditto::Stage::CheckInputIsFile), ditto::Event::Observed(false));
    assert_eq!(world.answer(ditto::Stage::CheckOutput), ditto::Event::Observed(true));
    assert_eq!(world.answer(ditto::Stage::CreateDirectory), ditto::Event::Performed(false));
    assert_eq!(world.answer(ditto::Stage::Convert), ditto::Event::Exited(Some(3)));
    assert_eq!(world.answer(ditto::Stage::LocateGenerated), ditto::Event::Observed(true));
    assert_eq!(world.answer(ditto::Stage::MoveGenerated), ditto::Event::Performed(false));
}

#[test]
fn dotted_stem_is_converted_and_moved() {
    let plan = Plan::new(Some("D/my.report.docx"), Some("D/out/final.pdf"));
    let (asked, result) = rehearse(plan, &all_well());
    assert_eq!(result, Ok(()));
    assert_eq!(asked.len(), 7);
    assert_eq!(asked.iter().filter(|action| is_run(action)).count(), 1);
    assert_eq!(asked[5], Action::CheckExists("D/out/my.report.pdf".to_string()));
    assert_eq!(
        asked[6],
        Action::Rename {
            from: "D/out/my.report.pdf".to_string(),
            to: "D/out/final.pdf".to_string(),
        }
    );
}

#[test]
fn dotted_stem_in_place_is_left_alone() {
    let plan = Plan::new(Some("D/my.report.docx"), Some("D/out/my.report.pdf"));
    assert!(plan.in_place);
    let (asked, result) = rehearse(plan, &all_well());
    assert_eq!(result, Ok(()));
    assert_eq!(asked.len(), 6);
    assert_eq!(asked[5], Action::CheckExists("D/out/my.report.pdf".to_string()));
    assert!(!asked.iter().any(is_rename));
}

#[test]
fn dotted_stem_missing_generated_file_is_reported() {
    let plan = Plan::new(Some("D/my.report.docx"), Some("D/out/my.pdf"));
    assert!(!plan.in_place);
    let world = Surroundings { generated_exists: false, ..all_well() };
    let (asked, result) = rehearse(plan, &world);
    assert_eq!(result, Err(ConversionError::OutputNotProduced));
    assert_eq!(asked[5], Action::CheckExists("D/out/my.report.pdf".to_string()));
}

#[test]
fn paths_without_text_fail_after_the_first_checks() {
    for plan in [
        Plan::new(None, Some("D/out/final.pdf")),
        Plan::new(Some("D/report.docx"), None),
        Plan::new(None, None),
    ] {
        for world in every_world() {
            let (asked, result) = rehearse(plan.clone(), &world);
            assert!(result.is_err());
            assert!(!asked.iter().any(is_run));
            if !world.input_exists {
                assert_eq!(result, Err(ConversionError::InputNotFound));
            } else if !world.input_is_file {
                assert_eq!(result, Err(ConversionError::InputNotAFile));
            } else if world.output_is_directory {
                assert_eq!(result, Err(ConversionError::OutputIsDirectory));
            } else if plan.output.is_none() {
                assert_eq!(result, Err(ConversionError::InvalidOutputPath));
                assert_eq!(asked.len(), 3);
                assert!(!asked.iter().any(has_effect));
            } else if !world.directory_created {
                assert_eq!(result, Err(ConversionError::FilesystemError));
            } else {
                assert_eq!(
                    result,
                    Err(ConversionError::ExternalToolFailed { exit_code: None })
                );
                assert_eq!(asked.len(), 4);
                assert_eq!(asked[3], Action::CreateDirectories("D/out".to_string()));
            }
        }
    }
}
