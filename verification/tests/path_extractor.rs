use wry::extract::{
    allocate_buffer, diagnostic_for, drop_format, take_path, Answer, Diagnostic, DropHandle,
    Extraction, FormatRequest, PathExtractor, Phase, Query,
};
use wry::status::StatusCode;

const NOT_A_FILE: i32 = -2147221404;
const E_FAIL: i32 = -2147467259;

fn wide(text: &str) -> Vec<u16> {
    text.encode_utf16().collect()
}

/// Answers a query the way a file list with these entries does.
fn file_list_answer(handle: DropHandle, files: &[Vec<u16>], query: Query) -> Answer {
    match query {
        Query::Format(_) => Answer::Format(Ok(handle)),
        Query::Count(_) => Answer::Count(files.len() as u32),
        Query::Length(_, index) => Answer::Length(files[index as usize].len() as u32),
        Query::Path(_, index, mut buffer) => {
            let name = &files[index as usize];
            let copied = name.len().min(buffer.len().saturating_sub(1));
            buffer[..copied].copy_from_slice(&name[..copied]);
            if !buffer.is_empty() {
                buffer[copied] = 0;
            }
            Answer::Path(buffer)
        }
        Query::Done | Query::Unasked => panic!("nothing was asked"),
    }
}

/// Runs an extraction against a file list and returns what it found and
/// how many queries it took.
fn extract_from(handle: DropHandle, files: &[Vec<u16>]) -> (Extraction, usize) {
    let (mut extractor, mut query) = PathExtractor::start();
    let mut asked = 0;
    while query != Query::Done {
        assert_ne!(query, Query::Unasked);
        asked += 1;
        let answer = file_list_answer(handle, files, query);
        let next = extractor.step(answer);
        extractor = next.0;
        query = next.1;
    }
    assert!(extractor.is_done());
    (extractor.finish(), asked)
}

#[test]
fn first_query_asks_for_the_file_list_format() {
    let (extractor, query) = PathExtractor::start();
    assert_eq!(extractor.phase(), Phase::Format);
    assert!(!extractor.is_done());
    assert_eq!(
        query,
        Query::Format(FormatRequest { format: 15, aspect: 1, index: -1, medium: 1 })
    );
}

#[test]
fn drop_format_is_the_whole_file_list_in_global_memory() {
    let request = drop_format();
    assert_eq!(request.format, 15);
    assert_eq!(request.aspect, 1);
    assert_eq!(request.index, -1);
    assert_eq!(request.medium, 1);
}

#[test]
fn two_paths_come_out_in_order() {
    let files = vec![wide("C:\\a.txt"), wide("C:\\b.txt")];
    let (found, asked) = extract_from(DropHandle(0x5150), &files);
    assert_eq!(found.paths, files);
    assert_eq!(found.handle, Some(DropHandle(0x5150)));
    assert_eq!(found.diagnostic, None);
    // the format, the count, and a length and a path for each entry
    assert_eq!(asked, 6);
}

#[test]
fn the_queries_follow_the_protocol() {
    let handle = DropHandle(7);
    let (extractor, _) = PathExtractor::start();
    let (extractor, query) = extractor.step(Answer::Format(Ok(handle)));
    assert_eq!(query, Query::Count(handle));
    assert_eq!(extractor.phase(), Phase::Count);
    let (extractor, query) = extractor.step(Answer::Count(2));
    assert_eq!(query, Query::Length(handle, 0));
    assert_eq!(extractor.phase(), Phase::Length);
    let (extractor, query) = extractor.step(Answer::Length(3));
    assert_eq!(query, Query::Path(handle, 0, vec![0, 0, 0, 0]));
    assert_eq!(extractor.phase(), Phase::Path);
    let (extractor, query) = extractor.step(Answer::Path(vec![97, 98, 99, 0]));
    assert_eq!(query, Query::Length(handle, 1));
    let (extractor, query) = extractor.step(Answer::Length(1));
    assert_eq!(query, Query::Path(handle, 1, vec![0, 0]));
    let (extractor, query) = extractor.step(Answer::Path(vec![100, 0]));
    assert_eq!(query, Query::Done);
    assert_eq!(extractor.phase(), Phase::Done);
    let found = extractor.finish();
    assert_eq!(found.paths, vec![vec![97, 98, 99], vec![100]]);
}

#[test]
fn every_buffer_has_the_reported_length_and_a_terminator() {
    assert_eq!(allocate_buffer(0), vec![0u16; 1]);
    assert_eq!(allocate_buffer(8), vec![0u16; 9]);
    assert_eq!(allocate_buffer(260).len(), 261);
    assert_eq!(allocate_buffer(40_000).len(), 40_001);
}

#[test]
fn a_path_longer_than_the_classic_limit_is_not_cut() {
    let long: Vec<u16> = (0..5000u32).map(|i| 0x61 + (i % 26) as u16).collect();
    let files = vec![wide("C:\\short"), long.clone(), wide("C:\\after")];
    let (found, _) = extract_from(DropHandle(1), &files);
    assert_eq!(found.paths.len(), 3);
    assert_eq!(found.paths[1].len(), 5000);
    assert_eq!(found.paths[1], long);
    assert_eq!(found.paths, files);
}

#[test]
fn no_terminator_is_left_in_a_path() {
    let files = vec![wide("C:\\Users\\me\\notes.md"), wide("D:\\x")];
    let (found, _) = extract_from(DropHandle(1), &files);
    for path in &found.paths {
        assert!(!path.contains(&0));
    }
    assert_eq!(found.paths[0].len(), 20);
    assert_eq!(found.paths[1].len(), 4);
}

#[test]
fn duplicates_are_kept_as_the_list_has_them() {
    let files = vec![wide("C:\\a"), wide("C:\\a"), wide("C:\\b"), wide("C:\\a")];
    let (found, asked) = extract_from(DropHandle(3), &files);
    assert_eq!(found.paths, files);
    assert_eq!(asked, 2 + 2 * 4);
}

#[test]
fn an_empty_file_list_yields_no_path_but_its_handle() {
    let (found, asked) = extract_from(DropHandle(9), &[]);
    assert_eq!(found.paths, Vec::<Vec<u16>>::new());
    assert_eq!(found.handle, Some(DropHandle(9)));
    assert_eq!(found.diagnostic, None);
    assert_eq!(asked, 2);
}

#[test]
fn an_entry_of_length_zero_is_an_empty_path() {
    let files = vec![Vec::new(), wide("C:\\b")];
    let (found, _) = extract_from(DropHandle(9), &files);
    assert_eq!(found.paths, files);
}

#[test]
fn a_payload_that_is_not_a_file_list_is_routine() {
    let (extractor, _) = PathExtractor::start();
    let (extractor, query) = extractor.step(Answer::Format(Err(StatusCode(NOT_A_FILE))));
    assert_eq!(query, Query::Done);
    assert!(extractor.is_done());
    assert_eq!(extractor.diagnostic(), Some(Diagnostic::NotAFile));
    let found = extractor.finish();
    assert_eq!(found.paths, Vec::<Vec<u16>>::new());
    assert_eq!(found.handle, None);
    assert_eq!(found.diagnostic, Some(Diagnostic::NotAFile));
}

#[test]
fn another_failure_of_the_format_query_is_told_apart() {
    let (extractor, _) = PathExtractor::start();
    let (extractor, query) = extractor.step(Answer::Format(Err(StatusCode(E_FAIL))));
    assert_eq!(query, Query::Done);
    let found = extractor.finish();
    assert_eq!(found.paths, Vec::<Vec<u16>>::new());
    assert_eq!(found.handle, None);
    assert_eq!(found.diagnostic, Some(Diagnostic::Unexpected(StatusCode(E_FAIL))));
}

#[test]
fn diagnostics_are_chosen_by_the_status() {
    assert_eq!(diagnostic_for(StatusCode(NOT_A_FILE)), Diagnostic::NotAFile);
    assert_eq!(diagnostic_for(StatusCode(E_FAIL)), Diagnostic::Unexpected(StatusCode(E_FAIL)));
    assert_eq!(diagnostic_for(StatusCode(0)), Diagnostic::Unexpected(StatusCode(0)));
    assert_eq!(
        diagnostic_for(StatusCode(NOT_A_FILE + 1)),
        Diagnostic::Unexpected(StatusCode(NOT_A_FILE + 1))
    );
}

#[test]
fn diagnostics_have_their_log_lines() {
    assert_eq!(
        Diagnostic::NotAFile.message(),
        "Error occurred while processing dropped/hovered item: item is not a file."
    );
    assert_eq!(
        Diagnostic::Unexpected(StatusCode(E_FAIL)).message(),
        "Unexpected error occurred while processing dropped/hovered item."
    );
    assert!(!Diagnostic::NotAFile.is_failure());
    assert!(Diagnostic::Unexpected(StatusCode(E_FAIL)).is_failure());
}

#[test]
fn take_path_keeps_what_stands_before_the_terminator() {
    assert_eq!(take_path(vec![67, 58, 92, 0], 3), vec![67, 58, 92]);
    assert_eq!(take_path(vec![67, 58, 92, 0, 7, 7], 3), vec![67, 58, 92]);
    assert_eq!(take_path(vec![0], 0), Vec::<u16>::new());
}

#[test]
fn take_path_takes_a_short_buffer_whole() {
    assert_eq!(take_path(vec![1, 2], 5), vec![1, 2]);
    assert_eq!(take_path(Vec::new(), 1), Vec::<u16>::new());
}

#[test]
fn an_answer_to_no_open_query_is_dropped() {
    let (extractor, _) = PathExtractor::start();
    let (extractor, query) = extractor.step(Answer::Count(4));
    assert_eq!(query, Query::Unasked);
    assert_eq!(extractor.phase(), Phase::Format);
    let (extractor, query) = extractor.step(Answer::Path(vec![1, 0]));
    assert_eq!(query, Query::Unasked);
    assert_eq!(extractor.phase(), Phase::Format);
    // the extraction still goes on from where it stood
    let (extractor, query) = extractor.step(Answer::Format(Ok(DropHandle(2))));
    assert_eq!(query, Query::Count(DropHandle(2)));
    let (extractor, query) = extractor.step(Answer::Length(1));
    assert_eq!(query, Query::Unasked);
    assert_eq!(extractor.phase(), Phase::Count);
    let (extractor, query) = extractor.step(Answer::Count(0));
    assert_eq!(query, Query::Done);
    let (extractor, query) = extractor.step(Answer::Count(1));
    assert_eq!(query, Query::Unasked);
    assert_eq!(extractor.phase(), Phase::Done);
    assert_eq!(extractor.finish().paths, Vec::<Vec<u16>>::new());
}

#[test]
fn finishing_early_gives_what_was_fetched_so_far() {
    let handle = DropHandle(4);
    let (extractor, _) = PathExtractor::start();
    let (extractor, _) = extractor.step(Answer::Format(Ok(handle)));
    let (extractor, _) = extractor.step(Answer::Count(3));
    let (extractor, _) = extractor.step(Answer::Length(1));
    let (extractor, _) = extractor.step(Answer::Path(vec![65, 0]));
    assert!(!extractor.is_done());
    let found = extractor.finish();
    assert_eq!(found.paths, vec![vec![65u16]]);
    assert_eq!(found.handle, Some(handle));
}
