use gobject_core::diag::{Diagnostic, Errors, Problem, Site};
use gobject_core::items::Role;
use gobject_core::screen::{judge, screen, Entry, Verdict};

fn entry(name: &str, candidate: bool) -> Entry {
    Entry { name: name.to_string(), candidate }
}

#[test]
fn collector_keeps_the_order_of_reporting() {
    let mut errors = Errors::new();
    assert_eq!(errors.len(), 0);
    errors.push(Site::Options, Problem::MissingName);
    errors.push_spanned(3, Problem::InvalidName);
    errors.push(Site::Member { item: 1, member: 2 }, Problem::DuplicateName);
    assert_eq!(errors.len(), 3);
    assert_eq!(
        errors.into_compile_errors(),
        Some(vec![
            Diagnostic { site: Site::Options, problem: Problem::MissingName },
            Diagnostic { site: Site::Item(3), problem: Problem::InvalidName },
            Diagnostic { site: Site::Member { item: 1, member: 2 }, problem: Problem::DuplicateName },
        ])
    );
}

#[test]
fn empty_collector_hands_out_nothing() {
    assert_eq!(Errors::new().into_compile_errors(), None);
}

#[test]
fn verdicts_on_candidates() {
    let entries = vec![
        entry("alpha", true),
        entry("alpha", false),
        entry("alpha", true),
        entry("", true),
        entry("beta", true),
        entry("b\u{e9}ta", true),
        entry("b\u{e9}ta", true),
    ];
    assert_eq!(judge(&entries, 0), Verdict::Keep);
    assert_eq!(judge(&entries, 1), Verdict::Skip);
    assert_eq!(judge(&entries, 2), Verdict::Duplicate);
    assert_eq!(judge(&entries, 3), Verdict::Invalid);
    assert_eq!(judge(&entries, 4), Verdict::Keep);
    assert_eq!(judge(&entries, 5), Verdict::Invalid);
    assert_eq!(judge(&entries, 6), Verdict::Invalid);
    let mut errors = Errors::new();
    assert_eq!(screen(&entries, 7, &mut errors), vec![0, 4]);
    let problems: Vec<(Site, Problem)> = errors
        .into_compile_errors()
        .unwrap_or_default()
        .into_iter()
        .map(|d| (d.site, d.problem))
        .collect();
    assert_eq!(
        problems,
        vec![
            (Site::Member { item: 7, member: 2 }, Problem::DuplicateName),
            (Site::Member { item: 7, member: 3 }, Problem::InvalidName),
            (Site::Member { item: 7, member: 5 }, Problem::InvalidName),
            (Site::Member { item: 7, member: 6 }, Problem::InvalidName),
        ]
    );
}

#[test]
fn a_name_skipped_earlier_is_free() {
    let entries = vec![entry("alpha", false), entry("alpha", true)];
    assert_eq!(judge(&entries, 1), Verdict::Keep);
    assert_eq!(Role::Plain, Role::Plain);
}
