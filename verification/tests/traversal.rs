use tquest::AnswerEntry;
use tquest::EntryType;
use tquest::MemoryPersistence;
use tquest::NoPersistence;
use tquest::QuestionairePersistence;
use tquest::OptionEntry;
use tquest::ProceedScreenResult;
use tquest::QuestionAnswerInput;
use tquest::QuestionEntry;
use tquest::QuestionScreenResult;
use tquest::Questionaire;
use tquest::QuestionaireController;
use tquest::QuestionaireEntry;
use tquest::QuestionaireResult;
use tquest::RepeatedQuestionEntry;
use tquest::ScriptedView;
use tquest::StringEntry;
use tquest::SubBlock;

fn create_small_questionaire() -> Questionaire {
    Questionaire::builder()
        .id("id00")
        .start_text("In the following questionaire you will be asked about your family and things. Do you want to proceed?")
        .end_text("All data are collected. Do you want to process them?")
        .questions(vec![
            QuestionaireEntry::Question(
                QuestionEntry::builder()
                    .id("id01")
                    .query_text("What's your name?")
                    .entry_type(EntryType::String(
                        StringEntry::builder().min_length(2).max_length(100).build(),
                    ))
                    .build(),
            ),
            QuestionaireEntry::Question(
                QuestionEntry::builder()
                    .query_text("What's your date of birth?")
                    .id("id02")
                    .help_text("Provide the date of birth in YYYY-MM-DD format")
                    .entry_type(EntryType::String(
                        StringEntry::builder().regexp("\\d\\d\\d\\d-\\d\\d-\\d\\d").build(),
                    ))
                    .build(),
            ),
        ])
        .build()
}

fn get_brother_questions(id_pre: &str) -> Vec<QuestionaireEntry> {
    vec![
        QuestionaireEntry::Question(
            QuestionEntry::builder()
                .id(&format!("{}_01", id_pre))
                .query_text("What's his name?")
                .entry_type(EntryType::String(
                    StringEntry::builder().min_length(2).max_length(50).build(),
                ))
                .build(),
        ),
        QuestionaireEntry::Question(
            QuestionEntry::builder()
                .id(&format!("{}_02", id_pre))
                .query_text("What's his date of birth?")
                .help_text("Provide the date of birth in YYYY-MM-DD format")
                .entry_type(EntryType::String(
                    StringEntry::builder().regexp("\\d\\d\\d\\d-\\d\\d-\\d\\d").build(),
                ))
                .build(),
        ),
    ]
}

fn get_sister_questions(id_pre: &str) -> Vec<QuestionaireEntry> {
    vec![
        QuestionaireEntry::Question(
            QuestionEntry::builder()
                .id(&format!("{}_01", id_pre))
                .query_text("What's her name?")
                .entry_type(EntryType::String(
                    StringEntry::builder().min_length(2).max_length(50).build(),
                ))
                .build(),
        ),
        QuestionaireEntry::Question(
            QuestionEntry::builder()
                .id(&format!("{}_02", id_pre))
                .query_text("What's her date of birth?")
                .help_text("Provide the date of birth in YYYY-MM-DD format")
                .entry_type(EntryType::String(
                    StringEntry::builder().regexp("\\d\\d\\d\\d-\\d\\d-\\d\\d").build(),
                ))
                .build(),
        ),
    ]
}

fn get_sibling_entries(id_pre: &str) -> Vec<QuestionaireEntry> {
    let id_block_1 = format!("{}_01", id_pre);
    let id_block_2 = format!("{}_02", id_pre);
    vec![
        QuestionaireEntry::Block(
            SubBlock::builder()
                .id(&id_block_1)
                .start_text("Do you have a sister?")
                .end_text("Do you have another sister?")
                .entries(get_sister_questions(&id_block_1))
                .loop_over_entries(true)
                .build(),
        ),
        QuestionaireEntry::Block(
            SubBlock::builder()
                .id(&id_block_2)
                .start_text("Do you have a brother?")
                .end_text("Do you have another brother?")
                .entries(get_brother_questions(&id_block_2))
                .loop_over_entries(true)
                .build(),
        ),
    ]
}

fn get_job_end_entries(id_pre: &str) -> Vec<QuestionaireEntry> {
    vec![
        QuestionaireEntry::Question(
            QuestionEntry::builder()
                .id(&format!("{}_01", id_pre))
                .query_text("What was your end date there?")
                .help_text("Provide the year and optional month in 'YYYY-MM' or 'YYYY' format.")
                .entry_type(EntryType::String(
                    StringEntry::builder().min_length(2).max_length(100).build(),
                ))
                .build(),
        ),
        QuestionaireEntry::Question(
            QuestionEntry::builder()
                .id(&format!("{}_02", id_pre))
                .query_text("Why did you leave the job?")
                .help_text("Provide the main reason for leaving")
                .entry_type(EntryType::Option(
                    OptionEntry::builder()
                        .options(vec![
                            "I left by my own".to_string(),
                            "I was laid off".to_string(),
                            "Other reason".to_string(),
                        ])
                        .build(),
                ))
                .build(),
        ),
    ]
}

fn get_job_entries(id_pre: &str) -> Vec<QuestionaireEntry> {
    vec![
        QuestionaireEntry::Question(
            QuestionEntry::builder()
                .id(&format!("{}_01", id_pre))
                .query_text("What was the name of the company you worked for?")
                .entry_type(EntryType::String(
                    StringEntry::builder().min_length(2).max_length(200).build(),
                ))
                .build(),
        ),
        QuestionaireEntry::Question(
            QuestionEntry::builder()
                .id(&format!("{}_02", id_pre))
                .query_text("What was your job title?")
                .entry_type(EntryType::String(
                    StringEntry::builder().min_length(2).max_length(100).build(),
                ))
                .build(),
        ),
        QuestionaireEntry::Question(
            QuestionEntry::builder()
                .id(&format!("{}_03", id_pre))
                .query_text("What was your start date there?")
                .help_text("Provide the year and optional month in 'YYYY-MM' or 'YYYY' format")
                .entry_type(EntryType::String(
                    StringEntry::builder().min_length(2).max_length(100).build(),
                ))
                .build(),
        ),
        QuestionaireEntry::Block(
            SubBlock::builder()
                .id(&format!("{}_04", id_pre))
                .start_text("Have you finished your job there?")
                .entries(get_job_end_entries(&format!("{}_04", id_pre)))
                .build(),
        ),
    ]
}

fn create_complex_questionaire() -> Questionaire {
    Questionaire::builder()
        .id("id00")
        .title("Fun Questionaire")
        .start_text("In the following questionaire you will be asked about your family and things. Do you want to proceed?")
        .end_text("All data are collected. Do you want to process them?")
        .questions(vec![
            QuestionaireEntry::Question(
                QuestionEntry::builder()
                    .id("id01")
                    .query_text("What's your name?")
                    .entry_type(EntryType::String(
                        StringEntry::builder().min_length(2).max_length(100).build(),
                    ))
                    .build(),
            ),
            QuestionaireEntry::Question(
                QuestionEntry::builder()
                    .id("id02")
                    .query_text("What's your date of birth?")
                    .help_text("Provide the date of birth in YYYY-MM-DD format")
                    .entry_type(EntryType::String(
                        StringEntry::builder().regexp("\\d\\d\\d\\d-\\d\\d-\\d\\d").build(),
                    ))
                    .build(),
            ),
            QuestionaireEntry::Block(
                SubBlock::builder()
                    .id("id03")
                    .start_text("Do you have brothers or sisters?")
                    .end_text("Do you have more brothers and sisters?")
                    .entries(get_sibling_entries("id03"))
                    .loop_over_entries(true)
                    .build(),
            ),
            QuestionaireEntry::Block(
                SubBlock::builder()
                    .id("id04")
                    .start_text("Have you already worked in a job?")
                    .end_text("Have you worked in another job?")
                    .entries(get_job_entries("id04"))
                    .loop_over_entries(true)
                    .build(),
            ),
        ])
        .build()
}

fn string_answer(v: &str) -> QuestionScreenResult {
    QuestionScreenResult::Proceeded(QuestionAnswerInput::String(Some(v.to_string())))
}

fn validate_question_string_input(ae: &AnswerEntry, expected_input: &str) {
    match ae {
        AnswerEntry::Block(_) => panic!("unexpected block answer"),
        AnswerEntry::Question(qai) => {
            if let QuestionAnswerInput::String(v) = qai {
                assert_eq!(Some(expected_input.to_string()), v.clone());
            } else {
                panic!("expected StringInput, but got something different")
            }
        },
        _ => {
            panic!("expected Input, but got something different")
        },
    }
}

#[test]
fn test_pos_init_01() {
    let questionaire = create_small_questionaire();
    assert_eq!(2, questionaire.pos_count.unwrap());
    assert_eq!(None, questionaire.init_block.pos);
    let mut counter: usize = 1;
    for e in questionaire.init_block.entries {
        match e {
            QuestionaireEntry::Question(q) => {
                assert_eq!(counter, q.pos);
                counter += 1;
            },
            QuestionaireEntry::Block(b) => {
                assert_eq!(counter, b.pos.unwrap());
                counter += 1;
            },
            _ => panic!("Unexpected input"),
        };
    }
}

#[test]
fn test_pos_init_02() {
    let questionaire = create_complex_questionaire();
    assert_eq!(16, questionaire.pos_count.unwrap());
    assert_eq!(None, questionaire.init_block.pos);
}

#[test]
fn test_pos_init_empty() {
    let questionaire = Questionaire::builder().id("id00").start_text("Anything?").build();
    assert_eq!(0, questionaire.pos_count.unwrap());
    assert_eq!(0, questionaire.init_block.entries.len());
}

#[test]
fn it_travers_01() {
    let view = ScriptedView::new(
        vec![ProceedScreenResult::Proceeded(true), ProceedScreenResult::Proceeded(true)],
        vec![string_answer("step: 2"), string_answer("step: 3")],
    );
    let questionaire = create_small_questionaire();
    let np = NoPersistence::new();
    let mut c: QuestionaireController<ScriptedView, NoPersistence> =
        QuestionaireController::new(&questionaire, view, np);
    match c.run() {
        Ok(r) => match r {
            QuestionaireResult::Finished(ba) => {
                assert_eq!(1, ba.iterations.len());
                let a = ba.iterations.get(0).unwrap();
                assert_eq!(2, a.len());
                let a0 = a.get(0).unwrap();
                validate_question_string_input(&a0, "step: 2");
                let a1 = a.get(1).unwrap();
                validate_question_string_input(&a1, "step: 3");
            },
            QuestionaireResult::Canceled => {
                panic!("received cancel from a valid questionaire flow");
            },
        },
        Err(_) => panic!("received Err as questionaire result"),
    }
}

#[test]
fn it_travers_cancel_end() {
    let view = ScriptedView::new(
        vec![ProceedScreenResult::Proceeded(true), ProceedScreenResult::Proceeded(false)],
        vec![string_answer("step: 2"), string_answer("step: 3")],
    );
    let questionaire = create_small_questionaire();
    let np = NoPersistence::new();
    let mut c: QuestionaireController<ScriptedView, NoPersistence> =
        QuestionaireController::new(&questionaire, view, np);
    let canceled: bool;
    match c.run() {
        Ok(r) => match r {
            QuestionaireResult::Finished(_ba) => {
                panic!("received finished instead of canceled");
            },
            QuestionaireResult::Canceled => {
                canceled = true;
            },
        },
        Err(_) => panic!("received Err as questionaire result"),
    }
    assert_eq!(true, canceled);
}

#[test]
fn it_travers_cancel_start() {
    let view = ScriptedView::new(vec![ProceedScreenResult::Proceeded(false)], vec![]);
    let questionaire = create_small_questionaire();
    let np = NoPersistence::new();
    let mut c: QuestionaireController<ScriptedView, NoPersistence> =
        QuestionaireController::new(&questionaire, view, np);
    match c.run() {
        Ok(QuestionaireResult::Canceled) => {},
        Ok(QuestionaireResult::Finished(_)) => panic!("declined start prompt must cancel the run"),
        Err(_) => panic!("received Err as questionaire result"),
    }
}

#[test]
fn it_travers_jobs_only() {
    let view = ScriptedView::new(
        vec![
            ProceedScreenResult::Proceeded(true),
            ProceedScreenResult::Proceeded(false),
            ProceedScreenResult::Proceeded(true),
            ProceedScreenResult::Proceeded(false),
            ProceedScreenResult::Proceeded(false),
            ProceedScreenResult::Proceeded(true),
        ],
        vec![
            string_answer("Homer"),
            string_answer("1956-03-12"),
            string_answer("Springfield Nuclear Power Plant"),
            string_answer("Nuclear safety inspector"),
            string_answer("1986"),
        ],
    );
    let questionaire = create_complex_questionaire();
    let np = NoPersistence::new();
    let mut c: QuestionaireController<ScriptedView, NoPersistence> =
        QuestionaireController::new(&questionaire, view, np);
    match c.run() {
        Ok(r) => match r {
            QuestionaireResult::Finished(ba) => {
                assert_eq!(1, ba.iterations.len());
                let a = ba.iterations.get(0).unwrap();
                assert_eq!(4, a.len());
                validate_question_string_input(a.get(0).unwrap(), "Homer");
                validate_question_string_input(a.get(1).unwrap(), "1956-03-12");
                match a.get(2).unwrap() {
                    AnswerEntry::Block(siblings) => {
                        assert_eq!("id03", siblings.id);
                        assert_eq!(0, siblings.iterations.len());
                    },
                    _ => panic!("expected a block answer for the siblings block"),
                }
                match a.get(3).unwrap() {
                    AnswerEntry::Block(jobs) => {
                        assert_eq!("id04", jobs.id);
                        assert_eq!(1, jobs.iterations.len());
                        let job = jobs.iterations.get(0).unwrap();
                        assert_eq!(4, job.len());
                        validate_question_string_input(
                            job.get(0).unwrap(),
                            "Springfield Nuclear Power Plant",
                        );
                        validate_question_string_input(
                            job.get(1).unwrap(),
                            "Nuclear safety inspector",
                        );
                        validate_question_string_input(job.get(2).unwrap(), "1986");
                        match job.get(3).unwrap() {
                            AnswerEntry::Block(job_end) => {
                                assert_eq!("id04_04", job_end.id);
                                assert_eq!(0, job_end.iterations.len());
                            },
                            _ => panic!("expected a block answer for the job end block"),
                        }
                    },
                    _ => panic!("expected a block answer for the jobs block"),
                }
            },
            QuestionaireResult::Canceled => {
                panic!("received cancel from a valid questionaire flow");
            },
        },
        Err(_) => panic!("received Err as questionaire result"),
    }
}

#[test]
fn it_travers_jobs_only_cancel() {
    let view = ScriptedView::new(
        vec![
            ProceedScreenResult::Proceeded(true),
            ProceedScreenResult::Proceeded(false),
            ProceedScreenResult::Proceeded(true),
            ProceedScreenResult::Proceeded(false),
            ProceedScreenResult::Proceeded(false),
            ProceedScreenResult::Proceeded(false),
        ],
        vec![
            string_answer("Homer"),
            string_answer("1956-03-12"),
            string_answer("Springfield Nuclear Power Plant"),
            string_answer("Nuclear safety inspector"),
            string_answer("1986"),
        ],
    );
    let questionaire = create_complex_questionaire();
    let np = NoPersistence::new();
    let mut c: QuestionaireController<ScriptedView, NoPersistence> =
        QuestionaireController::new(&questionaire, view, np);
    match c.run() {
        Ok(r) => match r {
            QuestionaireResult::Finished(_ba) => {
                panic!("received cancel from a valid questionaire flow");
            },
            QuestionaireResult::Canceled => {},
        },
        Err(_) => panic!("received Err as questionaire result"),
    }
}

#[test]
fn it_travers_loop_until_decline() {
    let questionaire = Questionaire::builder()
        .id("root")
        .start_text("Start?")
        .questions(vec![QuestionaireEntry::Block(
            SubBlock::builder()
                .id("root_01")
                .start_text("Enter the block?")
                .end_text("Another round?")
                .entries(vec![QuestionaireEntry::Question(
                    QuestionEntry::builder()
                        .id("root_01_01")
                        .query_text("A value?")
                        .build(),
                )])
                .loop_over_entries(true)
                .build(),
        )])
        .build();
    let view = ScriptedView::new(
        vec![
            ProceedScreenResult::Proceeded(true),
            ProceedScreenResult::Proceeded(true),
            ProceedScreenResult::Proceeded(true),
            ProceedScreenResult::Proceeded(false),
        ],
        vec![string_answer("first"), string_answer("second")],
    );
    let np = NoPersistence::new();
    let mut c: QuestionaireController<ScriptedView, NoPersistence> =
        QuestionaireController::new(&questionaire, view, np);
    match c.run() {
        Ok(QuestionaireResult::Finished(ba)) => {
            assert_eq!(1, ba.iterations.len());
            let a = ba.iterations.get(0).unwrap();
            assert_eq!(1, a.len());
            match a.get(0).unwrap() {
                AnswerEntry::Block(inner) => {
                    assert_eq!("root_01", inner.id);
                    assert_eq!(2, inner.iterations.len());
                    validate_question_string_input(
                        inner.iterations.get(0).unwrap().get(0).unwrap(),
                        "first",
                    );
                    validate_question_string_input(
                        inner.iterations.get(1).unwrap().get(0).unwrap(),
                        "second",
                    );
                },
                _ => panic!("expected a block answer"),
            }
        },
        _ => panic!("expected a finished run"),
    }
}

#[test]
fn it_travers_repeated_question_min_count() {
    let questionaire = Questionaire::builder()
        .id("root")
        .start_text("Start?")
        .questions(vec![QuestionaireEntry::RepeatedQuestion(
            RepeatedQuestionEntry::builder()
                .id("root_01")
                .query_text("Name one thing")
                .secondary_query_text("Name another thing")
                .min_count(1)
                .build(),
        )])
        .build();
    let view = ScriptedView::new(
        vec![ProceedScreenResult::Proceeded(true)],
        vec![
            QuestionScreenResult::Proceeded(QuestionAnswerInput::String(None)),
            string_answer("one thing"),
            QuestionScreenResult::Proceeded(QuestionAnswerInput::String(None)),
        ],
    );
    let np = NoPersistence::new();
    let mut c: QuestionaireController<ScriptedView, NoPersistence> =
        QuestionaireController::new(&questionaire, view, np);
    match c.run() {
        Ok(QuestionaireResult::Finished(ba)) => {
            assert_eq!(1, ba.iterations.len());
            let a = ba.iterations.get(0).unwrap();
            assert_eq!(1, a.len());
            match a.get(0).unwrap() {
                AnswerEntry::RepeatedQuestion(answers) => {
                    assert_eq!(1, answers.len());
                    assert_eq!(
                        QuestionAnswerInput::String(Some("one thing".to_string())),
                        answers[0]
                    );
                },
                _ => panic!("expected a repeated question answer"),
            }
        },
        _ => panic!("expected a finished run"),
    }
}

#[test]
fn it_travers_repeated_question_max_count() {
    let questionaire = Questionaire::builder()
        .id("root")
        .start_text("Start?")
        .questions(vec![QuestionaireEntry::RepeatedQuestion(
            RepeatedQuestionEntry::builder()
                .id("root_01")
                .query_text("Name one thing")
                .max_count(2)
                .build(),
        )])
        .build();
    let view = ScriptedView::new(
        vec![ProceedScreenResult::Proceeded(true)],
        vec![string_answer("one"), string_answer("two"), string_answer("three")],
    );
    let np = NoPersistence::new();
    let mut c: QuestionaireController<ScriptedView, NoPersistence> =
        QuestionaireController::new(&questionaire, view, np);
    match c.run() {
        Ok(QuestionaireResult::Finished(ba)) => {
            let a = ba.iterations.get(0).unwrap();
            match a.get(0).unwrap() {
                AnswerEntry::RepeatedQuestion(answers) => {
                    assert_eq!(2, answers.len());
                    assert_eq!(QuestionAnswerInput::String(Some("one".to_string())), answers[0]);
                    assert_eq!(QuestionAnswerInput::String(Some("two".to_string())), answers[1]);
                },
                _ => panic!("expected a repeated question answer"),
            }
        },
        _ => panic!("expected a finished run"),
    }
}

#[test]
fn test_run_stores_answers() {
    let view = ScriptedView::new(
        vec![ProceedScreenResult::Proceeded(true), ProceedScreenResult::Proceeded(true)],
        vec![string_answer("Homer"), string_answer("1956-03-12")],
    );
    let questionaire = create_small_questionaire();
    let persistence = MemoryPersistence::new();
    let mut c: QuestionaireController<ScriptedView, MemoryPersistence> =
        QuestionaireController::new(&questionaire, view, persistence);
    match c.run() {
        Ok(QuestionaireResult::Finished(_)) => {},
        _ => panic!("expected a finished run"),
    }
}

#[test]
fn test_memory_persistence_keeps_stored_answers() {
    let mut persistence = MemoryPersistence::new();
    let q = QuestionEntry::builder().id("id01").query_text("What's your name?").build();
    let answer = QuestionAnswerInput::String(Some("Homer".to_string()));
    persistence.store_question(&q, &answer).unwrap();
    let stored = persistence.stored();
    assert_eq!(1, stored.len());
    assert_eq!("id01", stored[0].id);
    assert_eq!(answer, stored[0].answer);
}

#[test]
fn test_repeated_question_immediate_empty() {
    let questionaire = Questionaire::builder()
        .id("root")
        .start_text("Start?")
        .questions(vec![QuestionaireEntry::RepeatedQuestion(
            RepeatedQuestionEntry::builder()
                .id("root_01")
                .query_text("Name one thing")
                .build(),
        )])
        .build();
    let view = ScriptedView::new(
        vec![ProceedScreenResult::Proceeded(true)],
        vec![QuestionScreenResult::Proceeded(QuestionAnswerInput::String(None))],
    );
    let np = NoPersistence::new();
    let mut c: QuestionaireController<ScriptedView, NoPersistence> =
        QuestionaireController::new(&questionaire, view, np);
    match c.run() {
        Ok(QuestionaireResult::Finished(ba)) => {
            let a = ba.iterations.get(0).unwrap();
            match a.get(0).unwrap() {
                AnswerEntry::RepeatedQuestion(answers) => assert_eq!(0, answers.len()),
                _ => panic!("expected a repeated question answer"),
            }
        },
        _ => panic!("expected a finished run"),
    }
}

#[test]
fn test_declined_blocks_produce_empty_answers() {
    let questionaire = Questionaire::builder()
        .id("root")
        .start_text("Start?")
        .questions(vec![
            QuestionaireEntry::Block(
                SubBlock::builder()
                    .id("root_01")
                    .start_text("First block?")
                    .entries(vec![QuestionaireEntry::Question(
                        QuestionEntry::builder().id("root_01_01").query_text("A?").build(),
                    )])
                    .build(),
            ),
            QuestionaireEntry::Block(
                SubBlock::builder()
                    .id("root_02")
                    .start_text("Second block?")
                    .entries(vec![QuestionaireEntry::Question(
                        QuestionEntry::builder().id("root_02_01").query_text("B?").build(),
                    )])
                    .build(),
            ),
        ])
        .build();
    let view = ScriptedView::new(
        vec![
            ProceedScreenResult::Proceeded(true),
            ProceedScreenResult::Proceeded(false),
            ProceedScreenResult::Proceeded(false),
        ],
        vec![],
    );
    let np = NoPersistence::new();
    let mut c: QuestionaireController<ScriptedView, NoPersistence> =
        QuestionaireController::new(&questionaire, view, np);
    match c.run() {
        Ok(QuestionaireResult::Finished(ba)) => {
            assert_eq!(1, ba.iterations.len());
            let a = ba.iterations.get(0).unwrap();
            assert_eq!(2, a.len());
            match a.get(0).unwrap() {
                AnswerEntry::Block(cb) => {
                    assert_eq!("root_01", cb.id);
                    assert_eq!(0, cb.iterations.len());
                },
                _ => panic!("expected a block answer"),
            }
            match a.get(1).unwrap() {
                AnswerEntry::Block(cb) => {
                    assert_eq!("root_02", cb.id);
                    assert_eq!(0, cb.iterations.len());
                },
                _ => panic!("expected a block answer"),
            }
        },
        _ => panic!("expected a finished run"),
    }
}
