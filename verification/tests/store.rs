use elektron_plot::{get_plots, reset_plots, store_plot, PlotStore};

#[test]
fn store_starts_empty() {
    let store = PlotStore::new();
    assert_eq!(0, get_plots(&store).len());
}

#[test]
fn store_keeps_order() {
    let mut store = PlotStore::new();
    store_plot(&mut store, vec![1, 2, 3]);
    store_plot(&mut store, vec![4]);
    assert_eq!(vec![vec![1u8, 2, 3], vec![4u8]], get_plots(&store));
    // reading does not consume
    assert_eq!(2, get_plots(&store).len());
}

#[test]
fn reset_clears_store() {
    let mut store = PlotStore::new();
    store_plot(&mut store, vec![9, 9]);
    reset_plots(&mut store);
    assert_eq!(0, get_plots(&store).len());
    store_plot(&mut store, vec![7]);
    assert_eq!(vec![vec![7u8]], get_plots(&store));
}
