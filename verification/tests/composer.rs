use tuitools::util::group_strs_to_fit_width;

fn rendered_width(group: &[&str], delimiter: &str) -> usize {
    let words: usize = group.iter().map(|w| w.chars().count()).sum();
    words + delimiter.chars().count() * group.len().saturating_sub(1)
}

#[test]
fn packs_words_greedily() {
    let words = vec!["aa", "bb", "cc", "dd"];
    let groups = group_strs_to_fit_width(&words, 7, ", ");
    assert_eq!(groups, vec![vec!["aa", "bb"], vec!["cc", "dd"]]);
}

#[test]
fn single_line_when_everything_fits() {
    let words = vec!["aa", "bb"];
    let groups = group_strs_to_fit_width(&words, 40, ", ");
    assert_eq!(groups, vec![vec!["aa", "bb"]]);
}

#[test]
fn no_group_exceeds_width() {
    let words = vec!["alpha", "be", "gamma", "x", "delta", "epsilon"];
    let delimiter = ", ";
    let width = 12;
    let groups = group_strs_to_fit_width(&words, width, delimiter);
    let flat: Vec<&str> = groups.iter().flatten().copied().collect();
    assert_eq!(flat, words);
    for g in &groups {
        assert!(
            rendered_width(g, delimiter) <= width
                || (g.len() == 1 && g[0].chars().count() > width),
            "group {g:?} too wide"
        );
    }
}

#[test]
fn word_longer_than_width_stands_alone() {
    let words = vec!["tiny", "extraordinarily-long", "end"];
    let groups = group_strs_to_fit_width(&words, 8, ", ");
    assert_eq!(
        groups,
        vec![vec!["tiny"], vec!["extraordinarily-long"], vec!["end"]]
    );
}

#[test]
fn empty_input_yields_one_empty_group() {
    let words: Vec<&str> = Vec::new();
    let groups = group_strs_to_fit_width(&words, 10, ", ");
    assert_eq!(groups, vec![Vec::<&str>::new()]);
}

#[test]
fn zero_width_splits_every_word() {
    let words = vec!["a", "b", "c"];
    let groups = group_strs_to_fit_width(&words, 0, ", ");
    assert_eq!(groups, vec![vec!["a"], vec!["b"], vec!["c"]]);
}
