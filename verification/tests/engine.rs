// The progression engine end to end: the controller's transition rule, the
// completion policy, the message table, the errors, and the line format.

use koans::catalog::Catalog;
use koans::controller::advance;
use koans::controller::Phase;
use koans::errors::EngineError;
use koans::harness::harness_outcome;
use koans::manifest::split_lines;
use koans::outcome::run_cycle;
use koans::progress::ProgressRecord;

fn catalog_of(names: &[&str]) -> Catalog {
    let entries: Vec<String> = names.iter().map(|n| n.to_string()).collect();
    Catalog::new(entries)
}

fn record_of(names: &[&str]) -> ProgressRecord {
    let entries: Vec<String> = names.iter().map(|n| n.to_string()).collect();
    ProgressRecord::from_entries(entries)
}

// The controller activates exactly the catalog entry at the stored count and
// advances the count by one, for every count below the catalog's length.
#[test]
fn activates_each_entry_in_order() {
    let catalog = catalog_of(&["alpha", "beta", "gamma"]);
    let mut record = ProgressRecord::new();
    for expected in ["alpha", "beta", "gamma"] {
        let n = record.count();
        let activated = advance(&catalog, &mut record);
        assert_eq!(activated, Some(expected.to_string()));
        assert_eq!(record.count(), n + 1);
        assert_eq!(record.entry(n), expected);
    }
    assert_eq!(advance(&catalog, &mut record), None);
    assert_eq!(record.count(), 3);
}

// Once the count reaches the catalog's length, repeated invocations never
// mutate the record and always report Complete.
#[test]
fn completion_is_idempotent() {
    let catalog = catalog_of(&["alpha", "beta"]);
    let mut record = record_of(&["alpha", "beta"]);
    for _ in 0..4 {
        assert_eq!(Phase::of(&catalog, &record), Phase::Complete);
        let outcome = run_cycle(&catalog, &mut record, true);
        assert!(!outcome.activated);
        assert_eq!(outcome.next, None);
        assert_eq!(record.count(), 2);
        assert_eq!(record.entry(0), "alpha");
        assert_eq!(record.entry(1), "beta");
    }
}

// The record's length never decreases and never skips an index across a
// sequence of invocations, whatever the harness reports.
#[test]
fn progress_is_monotonic() {
    let catalog = catalog_of(&["alpha", "beta", "gamma"]);
    let mut record = ProgressRecord::new();
    let mut previous: usize = 0;
    for harness_ok in [true, false, true, false, true] {
        let outcome = run_cycle(&catalog, &mut record, harness_ok);
        let now = record.count();
        assert!(now >= previous);
        assert!(now <= previous + 1);
        if now > previous {
            assert_eq!(outcome.next.as_deref(), Some(record.entry(previous).as_str()));
        }
        previous = now;
    }
    assert_eq!(record.count(), 3);
}

// Scenario A: catalog = ["a","b"], progress = [], harness always succeeds.
#[test]
fn two_koans_to_the_end() {
    let catalog = catalog_of(&["a", "b"]);
    let mut record = ProgressRecord::new();

    let run1 = run_cycle(&catalog, &mut record, true);
    assert_eq!(run1.next, Some("a".to_string()));
    assert_eq!(
        run1.message(),
        "Eternity lies ahead of us, and behind. Your path is not yet finished."
    );

    let run2 = run_cycle(&catalog, &mut record, true);
    assert_eq!(run2.next, Some("b".to_string()));
    assert_eq!(
        run2.message(),
        "Eternity lies ahead of us, and behind. Your path is not yet finished."
    );

    let run3 = run_cycle(&catalog, &mut record, true);
    assert!(!run3.activated);
    assert_eq!(run3.next, None);
    assert_eq!(run3.message(), "What is the sound of one hand clapping (for you)?");
}

// Scenario B: catalog = ["a"], progress = [], harness fails. Run 1 still
// activates "a" — activation happens regardless of this run's harness result,
// since the harness reflects previous activations — but the message meditates.
#[test]
fn failing_harness_still_advances() {
    let catalog = catalog_of(&["a"]);
    let mut record = ProgressRecord::new();

    let run1 = run_cycle(&catalog, &mut record, false);
    assert!(run1.activated);
    assert_eq!(run1.next, Some("a".to_string()));
    assert_eq!(record.count(), 1);
    assert_eq!(
        run1.message(),
        "Meditate on your approach and return. Mountains are merely mountains."
    );
}

// Scenario C: the catalog shrank from ["a","b","c"] to ["a","b"] while the
// record still holds three entries. The controller reports Complete, reads
// nothing out of bounds, and mutates nothing.
#[test]
fn shrunken_catalog_counts_as_complete() {
    let catalog = catalog_of(&["a", "b"]);
    let mut record = record_of(&["a", "b", "c"]);

    assert_eq!(Phase::of(&catalog, &record), Phase::Complete);
    let outcome = run_cycle(&catalog, &mut record, true);
    assert!(!outcome.activated);
    assert_eq!(outcome.next, None);
    assert_eq!(record.count(), 3);
    assert_eq!(record.entry(2), "c");
}

// Boundary: empty catalog, empty progress — immediately Complete on the
// first run.
#[test]
fn empty_catalog_is_complete_at_once() {
    let catalog = catalog_of(&[]);
    let mut record = ProgressRecord::new();

    assert_eq!(Phase::of(&catalog, &record), Phase::Complete);
    let outcome = run_cycle(&catalog, &mut record, true);
    assert!(!outcome.activated);
    assert_eq!(record.count(), 0);
    assert_eq!(outcome.message(), "What is the sound of one hand clapping (for you)?");
}

// The message table: a failing harness wins whatever the activation result.
#[test]
fn message_table() {
    let continuing = run_message(true, true);
    let finished = run_message(true, false);
    let meditate_a = run_message(false, true);
    let meditate_b = run_message(false, false);
    assert_eq!(
        continuing,
        "Eternity lies ahead of us, and behind. Your path is not yet finished."
    );
    assert_eq!(finished, "What is the sound of one hand clapping (for you)?");
    assert_eq!(
        meditate_a,
        "Meditate on your approach and return. Mountains are merely mountains."
    );
    assert_eq!(meditate_a, meditate_b);
}

fn run_message(harness_ok: bool, advancing: bool) -> &'static str {
    let catalog = if advancing { catalog_of(&["a"]) } else { catalog_of(&[]) };
    let mut record = ProgressRecord::new();
    let outcome = run_cycle(&catalog, &mut record, harness_ok);
    assert_eq!(outcome.activated, advancing);
    outcome.message()
}

// The harness succeeds as a whole exactly when both the clean step and the
// test step exited successfully.
#[test]
fn harness_needs_both_steps() {
    assert!(harness_outcome(true, true));
    assert!(!harness_outcome(true, false));
    assert!(!harness_outcome(false, true));
    assert!(!harness_outcome(false, false));
}

// Each fatal setup error surfaces its own message.
#[test]
fn error_messages() {
    assert_eq!(
        EngineError::CatalogUnavailable.describe(),
        "The catalog of koans cannot be read."
    );
    assert_eq!(
        EngineError::StoreUnavailable.describe(),
        "The record of your progress cannot be opened."
    );
    assert_eq!(
        EngineError::HarnessUnavailable.describe(),
        "The test harness cannot be launched."
    );
}

// The manifest's line format: one identifier per line, final break optional,
// empty file means no lines.
#[test]
fn manifest_lines() {
    assert_eq!(
        split_lines(b"the_truth\narrays\n"),
        vec![b"the_truth".to_vec(), b"arrays".to_vec()]
    );
    assert_eq!(
        split_lines(b"the_truth\narrays"),
        vec![b"the_truth".to_vec(), b"arrays".to_vec()]
    );
    assert_eq!(split_lines(b""), Vec::<Vec<u8>>::new());
    assert_eq!(split_lines(b"\n"), vec![b"".to_vec()]);
    assert_eq!(split_lines(b"a\n\nb"), vec![b"a".to_vec(), b"".to_vec(), b"b".to_vec()]);
}
