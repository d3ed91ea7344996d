use frost_tune::autoeq::{filter_type_of_line, layout_bands};
use frost_tune::eq::FilterType;

#[test]
fn filter_line_types() {
    assert_eq!(filter_type_of_line("FILTER 1: ON LSC FC 105 HZ GAIN 3 DB Q 0.7"), FilterType::LowShelf);
    assert_eq!(filter_type_of_line("FILTER 2: ON HSQ FC 9000 HZ"), FilterType::HighShelf);
    assert_eq!(filter_type_of_line("FILTER 3: ON HP FC 20 HZ"), FilterType::HighPass);
    assert_eq!(filter_type_of_line("FILTER 4: ON LP FC 20000 HZ"), FilterType::LowPass);
    assert_eq!(filter_type_of_line("FILTER 5: ON LS FC 100 HZ"), FilterType::LowShelf);
    assert_eq!(filter_type_of_line("FILTER 6: ON HS FC 100 HZ"), FilterType::HighShelf);
    assert_eq!(filter_type_of_line("FILTER 7: ON PK FC 1000 HZ"), FilterType::Peak);
    assert_eq!(filter_type_of_line("FILTER 8: ON HPX FC 1000 HZ"), FilterType::Peak);
}

#[test]
fn bands_are_laid_out_by_index() {
    assert_eq!(layout_bands(&vec![]), vec![None]);
    assert_eq!(layout_bands(&vec![2, 0, 2]), vec![Some(1), None, Some(2)]);
    assert_eq!(layout_bands(&vec![0, 1, 2]), vec![Some(0), Some(1), Some(2)]);
}
