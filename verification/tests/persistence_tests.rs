use tquest::MemoryPersistence;
use tquest::NoPersistence;
use tquest::QuestionAnswer;
use tquest::QuestionAnswerInput;
use tquest::QuestionairePersistence;
use tquest::persistence::join_answer_line;
use tquest::persistence::split_answer_line;
use tquest::controller::get_preferred;
use tquest::controller::run_repeated_question;
use tquest::controller::run_sub_block;
use tquest::EntryType;
use tquest::ProceedScreenResult;
use tquest::QuestionEntry;
use tquest::QuestionScreenResult;
use tquest::RepeatedQuestionEntry;
use tquest::ScriptedView;
use tquest::StringEntry;
use tquest::SubBlock;

fn record(id: &str, answer: &str) -> QuestionAnswer {
    QuestionAnswer {
        id: id.to_string(),
        answer: QuestionAnswerInput::String(Some(answer.to_string())),
    }
}

#[test]
fn test_next() {
    let mut persistence = MemoryPersistence::new();
    persistence.import(&vec![
        record("id01", "Homer"),
        record("id02", "1956-03-12"),
        record("id03_01_01", "Lisa"),
        record("id03_01_02", "1981-05-09"),
        record("id03_01_01", "Maggie"),
        record("id03_01_02", "1989-01-12"),
        record("id04_01", "Springfield Nuclear Power Plant"),
        record("id04_02", "Nuclear safety inspector"),
        record("id04_03", "1986"),
        record("id04_04_01", "1987"),
        record("id04_04_02", "I was laid off"),
        record("id04_01", "Moe's Tavern"),
        record("id04_02", "Barfly"),
        record("id04_03", "1987"),
    ]);
    assert_eq!("id01".to_string(), persistence.next_answer_id().unwrap());
    let _ = persistence.next_answer().unwrap();
    assert_eq!("id02".to_string(), persistence.next_answer_id().unwrap());
    let _ = persistence.next_answer().unwrap();
    assert_eq!("id03_01_01".to_string(), persistence.next_answer_id().unwrap());
    let _ = persistence.next_answer().unwrap();
    assert_eq!("id03_01_02".to_string(), persistence.next_answer_id().unwrap());
    let _ = persistence.next_answer().unwrap();
    assert_eq!("id03_01_01".to_string(), persistence.next_answer_id().unwrap());
    let _ = persistence.next_answer().unwrap();
    assert_eq!("id03_01_02".to_string(), persistence.next_answer_id().unwrap());
    let _ = persistence.next_answer().unwrap();
    assert_eq!("id04_01".to_string(), persistence.next_answer_id().unwrap());
    let _ = persistence.next_answer().unwrap();
    assert_eq!("id04_02".to_string(), persistence.next_answer_id().unwrap());
    let _ = persistence.next_answer().unwrap();
    assert_eq!("id04_03".to_string(), persistence.next_answer_id().unwrap());
    let _ = persistence.next_answer().unwrap();
    assert_eq!("id04_04_01".to_string(), persistence.next_answer_id().unwrap());
    let _ = persistence.next_answer().unwrap();
    assert_eq!("id04_04_02".to_string(), persistence.next_answer_id().unwrap());
    let _ = persistence.next_answer().unwrap();
    assert_eq!("id04_01".to_string(), persistence.next_answer_id().unwrap());
    let _ = persistence.next_answer().unwrap();
    assert_eq!("id04_02".to_string(), persistence.next_answer_id().unwrap());
    let _ = persistence.next_answer().unwrap();
    assert_eq!("id04_03".to_string(), persistence.next_answer_id().unwrap());
    let _ = persistence.next_answer().unwrap();
    assert_eq!(None, persistence.next_answer_id());
    assert_eq!(None, persistence.next_answer());
    assert_eq!(None, persistence.next_answer_id());
    assert_eq!(None, persistence.next_answer());
}

#[test]
fn test_resolver_mismatch_keeps_cursor() {
    let mut persistence = MemoryPersistence::new();
    let x = QuestionAnswerInput::String(Some("X".to_string()));
    persistence.import(&vec![QuestionAnswer { id: "q1".to_string(), answer: x.clone() }]);

    let miss = get_preferred("q2", &mut persistence);
    assert_eq!(Some(QuestionAnswerInput::String(None)), miss);

    let hit = get_preferred("q1", &mut persistence);
    assert_eq!(Some(x), hit);

    assert_eq!(None, get_preferred("q1", &mut persistence));
}

#[test]
fn test_no_persistence_is_empty() {
    let mut persistence = NoPersistence::new();
    assert_eq!(None, persistence.next_answer_id());
    assert_eq!(None, persistence.next_answer());
    assert!(persistence.load(Some("anywhere")).is_err());
    assert_eq!(
        "Not supported",
        persistence.load(None).unwrap_err().message()
    );
}

#[test]
fn test_memory_persistence_load_needs_source() {
    let mut persistence = MemoryPersistence::new();
    assert_eq!(
        "No source for loading given",
        persistence.load(None).unwrap_err().message()
    );
    assert_eq!(
        "Not supported",
        persistence.load(Some("somewhere")).unwrap_err().message()
    );
}

#[test]
fn test_log_line_framing() {
    let line = join_answer_line("id01", "{\"String\":\"Homer\"}");
    assert_eq!("id01={\"String\":\"Homer\"}", line);
    let (id, payload) = split_answer_line(&line).unwrap();
    assert_eq!("id01", id);
    assert_eq!("{\"String\":\"Homer\"}", payload);
}

#[test]
fn test_log_line_splitting_edge_cases() {
    assert_eq!(None, split_answer_line("no separator here"));
    let (id, payload) = split_answer_line("a=b=c").unwrap();
    assert_eq!("a", id);
    assert_eq!("b=c", payload);
    let (id, payload) = split_answer_line("=payload").unwrap();
    assert_eq!("", id);
    assert_eq!("payload", payload);
    let (id, payload) = split_answer_line("id=").unwrap();
    assert_eq!("id", id);
    assert_eq!("", payload);
}

#[test]
fn test_replay_auto_enters_root_and_offers_answer() {
    let block = SubBlock {
        id: "id00".to_string(),
        pos: None,
        start_text: "Ready?".to_string(),
        end_text: None,
        help_text: None,
        entries: vec![tquest::QuestionaireEntry::Question(QuestionEntry {
            id: "id01".to_string(),
            pos: 1,
            required: false,
            query_text: "What's your name?".to_string(),
            help_text: None,
            entry_type: EntryType::String(StringEntry::default()),
        })],
        loop_over_entries: false,
    };
    let replayed = QuestionAnswerInput::String(Some("Homer".to_string()));
    let mut persistence = MemoryPersistence::new();
    persistence.import(&vec![QuestionAnswer {
        id: "id01".to_string(),
        answer: replayed.clone(),
    }]);
    let mut view = ScriptedView::new(
        vec![ProceedScreenResult::Proceeded(true)],
        vec![QuestionScreenResult::Proceeded(QuestionAnswerInput::String(Some(
            "Homer".to_string(),
        )))],
    );
    let r = run_sub_block(&mut view, &mut persistence, &block, true, 1);
    assert!(r.is_ok());
    assert_eq!(vec![Some(true)], view.proceed_preferred);
    assert_eq!(vec![Some(replayed)], view.question_preferred);
}

#[test]
fn test_replay_falls_back_to_empty_marker() {
    let rq = RepeatedQuestionEntry::builder()
        .id("r1")
        .query_text("Name one thing")
        .build();
    let replayed = QuestionAnswerInput::String(Some("one".to_string()));
    let mut persistence = MemoryPersistence::new();
    persistence.import(&vec![QuestionAnswer {
        id: "r1".to_string(),
        answer: replayed.clone(),
    }]);
    let mut view = ScriptedView::new(
        vec![],
        vec![
            QuestionScreenResult::Proceeded(QuestionAnswerInput::String(Some("one".to_string()))),
            QuestionScreenResult::Proceeded(QuestionAnswerInput::String(Some("two".to_string()))),
            QuestionScreenResult::Proceeded(QuestionAnswerInput::String(None)),
        ],
    );
    let r = run_repeated_question(&mut view, &mut persistence, &rq, 1);
    assert!(r.is_ok());
    assert_eq!(
        vec![
            Some(replayed),
            Some(QuestionAnswerInput::String(None)),
            Some(QuestionAnswerInput::String(None)),
        ],
        view.question_preferred
    );
}
