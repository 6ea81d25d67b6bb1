use dex_bench::filters::{
    cursor_direction, cursor_operator, needs_maker, needs_volume, sort_order, SortOrder,
};

#[test]
fn query_types_filter_and_sort_as_listed() {
    for q in 1u8..=10 {
        let order = sort_order(q);
        assert_eq!(order, if q == 5 || q == 8 { SortOrder::Asc } else { SortOrder::Desc });
        assert_eq!(needs_maker(q), [4, 6, 10].contains(&q));
        assert_eq!(needs_volume(q), [7, 9, 10].contains(&q));
        let side = if [3, 6, 9, 10].contains(&q) {
            Some(true)
        } else if q == 5 {
            Some(false)
        } else {
            None
        };
        assert_eq!(cursor_direction(q), side);
        assert_eq!(cursor_operator(q), if q == 5 { ">" } else { "<" });
    }
}

#[test]
fn cursors_and_sorting_agree() {
    for q in 0u8..=255 {
        if let Some(backwards) = cursor_direction(q) {
            assert_eq!(backwards, sort_order(q) == SortOrder::Desc);
            assert_eq!(cursor_operator(q), if backwards { "<" } else { ">" });
        }
    }
}

#[test]
fn each_direction_has_its_index() {
    assert_eq!(SortOrder::from_flag(true), SortOrder::Desc);
    assert_eq!(SortOrder::from_flag(false), SortOrder::Asc);
    assert_eq!((SortOrder::Desc.direction(), SortOrder::Desc.index_name()), ("DESC", "idx_desc"));
    assert_eq!((SortOrder::Asc.direction(), SortOrder::Asc.index_name()), ("ASC", "idx_asc"));
}
