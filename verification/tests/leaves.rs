use iced_lazy::allocation::Allocation;
use iced_lazy::allocation::Region;
use iced_lazy::allocation::SIZE;
use iced_lazy::size::Size;
use iced_lazy::svg::ContentFit;
use iced_lazy::svg::Handle;
use iced_lazy::svg::Length;
use iced_lazy::svg::Svg;

#[test]
fn allocation_partial_reports_its_region() {
    let region = Region { x: 16, y: 32, width: 100, height: 50 };
    assert_eq!(region.position(), (16, 32));
    assert_eq!(region.size(), Size::new(100, 50));
    let allocation = Allocation::Partial { layer: 2, region };
    assert_eq!(allocation.position(), (16, 32));
    assert_eq!(allocation.size(), Size { width: 100, height: 50 });
    assert_eq!(allocation.z_position(), 3);
}

#[test]
fn allocation_full_spans_a_whole_layer() {
    let allocation = Allocation::Full { layer: 0 };
    assert_eq!(SIZE, 2048);
    assert_eq!(allocation.position(), (0, 0));
    assert_eq!(allocation.size(), Size { width: 2048, height: 2048 });
    assert_eq!(allocation.z_position(), 1);
    assert_eq!(Allocation::Full { layer: 41 }.z_position(), 42);
}

#[test]
fn svg_starts_filling_the_width_and_containing_the_graphic() {
    let svg: Svg<u8> = Svg::new(Handle::from_memory(vec![1, 2, 3]));
    assert_eq!(svg.size(), (Length::Fill, Length::Shrink));
    assert_eq!(svg.fit(), ContentFit::Contain);
    assert_eq!(*svg.variant(), 0);
    assert!(matches!(svg.handle(), Handle::Bytes(bytes) if bytes == &vec![1, 2, 3]));
}

#[test]
fn svg_from_path_points_to_the_file() {
    let svg: Svg<bool> = Svg::from_path(String::from("icons/tiger.svg"));
    assert!(matches!(svg.handle(), Handle::Path(path) if path == "icons/tiger.svg"));
    assert_eq!(svg.size(), (Length::Fill, Length::Shrink));
    assert_eq!(svg.fit(), ContentFit::Contain);
    assert_eq!(*svg.variant(), false);
}

#[test]
fn svg_builders_set_one_property_each() {
    let svg: Svg<u8> = Svg::from_path(String::from("a.svg"));
    let svg = svg.width(Length::Fixed(200));
    assert_eq!(svg.size(), (Length::Fixed(200), Length::Shrink));
    let svg = svg.height(Length::FillPortion(2));
    assert_eq!(svg.size(), (Length::Fixed(200), Length::FillPortion(2)));
    let svg = svg.content_fit(ContentFit::ScaleDown);
    assert_eq!(svg.fit(), ContentFit::ScaleDown);
    assert_eq!(svg.size(), (Length::Fixed(200), Length::FillPortion(2)));
    let svg = svg.style(7);
    assert_eq!(*svg.variant(), 7);
    assert_eq!(svg.fit(), ContentFit::ScaleDown);
    assert_eq!(svg.size(), (Length::Fixed(200), Length::FillPortion(2)));
    assert!(matches!(svg.handle(), Handle::Path(path) if path == "a.svg"));
}
