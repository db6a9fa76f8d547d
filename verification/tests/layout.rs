use nmeagc::layout::{centered_percentages, raw_scroll_offset, skyplot_plot_size, tick_timeout};

#[test]
fn layout_arithmetic() {
    assert_eq!(centered_percentages(70), (15, 70, 15));
    assert_eq!(centered_percentages(99), (0, 99, 0));
    assert_eq!(skyplot_plot_size(80, 30), (60, 30));
    assert_eq!(skyplot_plot_size(21, 30), (20, 10));
    assert_eq!(raw_scroll_offset(100, 22), 80);
    assert_eq!(raw_scroll_offset(10, 22), 0);
    assert_eq!(raw_scroll_offset(70000, 2), 4464);
    assert_eq!(tick_timeout(33, 10), (23, false));
    assert_eq!(tick_timeout(33, 40), (0, true));
}
