use jira_tui::ui::issue_list::{layout_columns, Field, FieldWidth};

#[test]
fn field_width_catalog() {
    assert!(matches!(Field::Id.width(), FieldWidth::Fixed(8)));
    assert!(matches!(
        Field::Summary.width(),
        FieldWidth::Flexible { factor: 5, min: 20 }
    ));
    assert!(matches!(
        Field::Status.width(),
        FieldWidth::Flexible { factor: 1, min: 5 }
    ));
    assert!(matches!(Field::Priority.width(), FieldWidth::Fixed(1)));
}

#[test]
fn layout_at_forty_shows_every_column_exactly() {
    let cols = layout_columns(40);
    assert_eq!(
        cols,
        vec![
            (Field::Id, 8),
            (Field::Priority, 1),
            (Field::Summary, 20),
            (Field::Status, 5),
        ]
    );
    let total: u16 = cols.iter().map(|c| c.1).sum::<u16>() + 2 * (cols.len() as u16 - 1);
    assert!(total <= 40);
}

#[test]
fn layout_is_deterministic() {
    assert_eq!(layout_columns(40), layout_columns(40));
    assert_eq!(layout_columns(73), layout_columns(73));
}

#[test]
fn layout_drops_columns_as_the_viewport_narrows() {
    // Too narrow even for the summary minimum: the summary alone, overflowing.
    assert_eq!(layout_columns(10), vec![(Field::Summary, 20)]);
    // Room for the priority marker beside the summary.
    assert_eq!(
        layout_columns(25),
        vec![(Field::Priority, 1), (Field::Summary, 22)]
    );
    // Status fits back in before id does.
    assert_eq!(
        layout_columns(30),
        vec![(Field::Priority, 1), (Field::Summary, 20), (Field::Status, 5)]
    );
    // Id in, priority out again just below the full set.
    assert_eq!(
        layout_columns(39),
        vec![(Field::Id, 8), (Field::Summary, 21), (Field::Status, 5)]
    );
}

#[test]
fn layout_shares_leftover_space_by_factor() {
    let cols = layout_columns(80);
    assert_eq!(
        cols,
        vec![
            (Field::Id, 8),
            (Field::Priority, 1),
            (Field::Summary, 53),
            (Field::Status, 11),
        ]
    );
}

#[test]
fn layout_always_includes_summary_and_fits_the_viewport() {
    for w in 0..=200u16 {
        let cols = layout_columns(w);
        assert!(cols.iter().any(|c| c.0 == Field::Summary));
        let total: u32 =
            cols.iter().map(|c| c.1 as u32).sum::<u32>() + 2 * (cols.len() as u32 - 1);
        assert!(
            total <= w as u32 || (cols.len() == 1 && 20 > w),
            "layout overflowed at width {w}"
        );
    }
}
