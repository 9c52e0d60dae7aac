use pusillanipous::geometry::Rect;
use pusillanipous::layout::{centered_rect, inner_box};

#[test]
fn centred_bands_lie_within_the_area_with_the_asked_size() {
    for start in [0u16, 7, 65500, 65530, 65535] {
        for extent in [0u16, 1, 2, 5, 10, 15, 16, 17, 24, 25, 40] {
            for length in [0u16, 1, 2, 6, 10, 15, 16, 17, 19, 34, 70] {
                let area = Rect { x: start, y: start, width: extent, height: extent };
                let r = centered_rect(area, length, length);
                let end = start.saturating_add(extent);
                let size = length.min(end - start);
                assert!(r.y >= start && r.x >= start);
                assert_eq!(r.height, size);
                assert_eq!(r.width, size);
                assert!(r.y as u32 + r.height as u32 <= end as u32);
                assert!(r.x as u32 + r.width as u32 <= end as u32);
            }
        }
    }
}

#[test]
fn inside_of_a_bordered_box() {
    assert_eq!(inner_box(Rect::new(10, 5, 20, 8)), Rect::new(11, 6, 18, 6));
    assert_eq!(inner_box(Rect::new(3, 3, 1, 1)), Rect { x: 4, y: 4, width: 0, height: 0 });
    assert_eq!(inner_box(Rect::new(3, 3, 0, 0)), Rect { x: 3, y: 3, width: 0, height: 0 });
    assert_eq!(
        inner_box(Rect { x: 65535, y: 65535, width: 0, height: 0 }),
        Rect { x: 65535, y: 65535, width: 0, height: 0 }
    );
}
