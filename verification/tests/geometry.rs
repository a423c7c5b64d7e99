use geom2d::Point;
use geom2d::Rect;
use geom2d::Size;

#[test]
fn size_scale_by_gives_per_axis_products() {
    let s = Size { w: 3, h: 4 };
    let r = s.scale_by([5, 6]);
    assert_eq!(r.to_vec2d(), [3 * 5, 4 * 6]);
}

#[test]
fn size_scale_uniform_scales_both_axes() {
    let s = Size { w: 3, h: -4 };
    assert_eq!(s.scale_uniform(10), Size { w: 30, h: -40 });
}

#[test]
fn size_vec2d_round_trip() {
    let s = Size::from([7, 8]);
    assert_eq!(s, Size { w: 7, h: 8 });
    assert_eq!(s.to_vec2d(), [7, 8]);
}

#[test]
fn point_add_vector_gives_per_axis_sums() {
    let p = Point { x: 10, y: -20 };
    let r = p.add_vector([1, 2]);
    assert_eq!(r.to_vec2d(), [11, -18]);
}

#[test]
fn point_add_then_sub_vector_round_trips() {
    let p = Point { x: 10, y: -20 };
    let v = [33, -44];
    assert_eq!(p.add_vector(v).sub_vector(v).to_vec2d(), p.to_vec2d());
}

#[test]
fn point_scalar_translation() {
    let p = Point { x: 1, y: 2 };
    assert_eq!(p.add_scalar(5), Point { x: 6, y: 7 });
    assert_eq!(p.sub_scalar(5), Point { x: -4, y: -3 });
}

#[test]
fn point_vec2d_round_trip() {
    let p = Point::from([9, -9]);
    assert_eq!(p, Point { x: 9, y: -9 });
    assert_eq!(p.to_vec2d(), [9, -9]);
}

#[test]
fn rect_array_round_trip() {
    let r = Rect {
        pos: Point { x: 1, y: -2 },
        size: Size { w: 30, h: 40 },
    };
    let a = r.to_array();
    assert_eq!(a, [1, -2, 30, 40]);
    let back = Rect::from(a);
    assert_eq!(back, r);
    assert_eq!(back.to_array(), a);
    assert_eq!(r.into_array(), a);
}

#[test]
fn rect_from_point_and_size() {
    let pos = Point { x: 3, y: 4 };
    let size = Size { w: 5, h: 6 };
    let r = Rect::from((pos, size));
    assert_eq!(r.pos, pos);
    assert_eq!(r.size, size);
}

#[test]
fn rect_sides_match_size() {
    let r = Rect {
        pos: Point { x: -7, y: 11 },
        size: Size { w: 20, h: 31 },
    };
    assert_eq!(r.left(), -7);
    assert_eq!(r.top(), 11);
    assert_eq!(r.right(), -7 + 20);
    assert_eq!(r.bottom(), 11 + 31);
    assert_eq!(r.right() - r.left(), r.size.w);
    assert_eq!(r.bottom() - r.top(), r.size.h);
}

#[test]
fn rect_sides_match_negative_size() {
    let r = Rect {
        pos: Point { x: 5, y: 5 },
        size: Size { w: -3, h: -8 },
    };
    assert_eq!(r.right() - r.left(), -3);
    assert_eq!(r.bottom() - r.top(), -8);
}

#[test]
fn contains_excludes_the_boundary() {
    let r = Rect {
        pos: Point { x: 0, y: 0 },
        size: Size { w: 10, h: 10 },
    };
    assert!(!r.contains(Point { x: 0, y: 5 }));
    assert!(r.contains(Point { x: 5, y: 5 }));
    assert!(!r.contains(Point { x: 10, y: 5 }));
    assert!(!r.contains(Point { x: 5, y: 0 }));
    assert!(!r.contains(Point { x: 5, y: 10 }));
    assert!(!r.contains(Point { x: 0, y: 0 }));
    assert!(!r.contains(Point { x: 11, y: 5 }));
    assert!(r.contains(Point { x: 1, y: 9 }));
}

#[test]
fn margin_collapses_to_the_center() {
    let r = Rect {
        pos: Point { x: 0, y: 0 },
        size: Size { w: 4, h: 4 },
    };
    let m = r.margin(3);
    assert_eq!(
        m,
        Rect {
            pos: Point { x: 2, y: 2 },
            size: Size { w: 0, h: 0 },
        }
    );
}

#[test]
fn margin_normal_insets_every_side() {
    let r = Rect {
        pos: Point { x: 0, y: 0 },
        size: Size { w: 10, h: 10 },
    };
    let m = r.margin(2);
    assert_eq!(
        m,
        Rect {
            pos: Point { x: 2, y: 2 },
            size: Size { w: 6, h: 6 },
        }
    );
}

#[test]
fn margin_collapses_each_axis_independently() {
    let r = Rect {
        pos: Point { x: 0, y: 0 },
        size: Size { w: 4, h: 10 },
    };
    let m = r.margin(3);
    assert_eq!(
        m,
        Rect {
            pos: Point { x: 2, y: 3 },
            size: Size { w: 0, h: 4 },
        }
    );
}

#[test]
fn margin_on_negative_size_collapses_toward_zero() {
    let r = Rect {
        pos: Point { x: 10, y: 10 },
        size: Size { w: -5, h: -4 },
    };
    let m = r.margin(0);
    assert_eq!(
        m,
        Rect {
            pos: Point { x: 10 + (-5) / 2, y: 10 + (-4) / 2 },
            size: Size { w: 0, h: 0 },
        }
    );
}

#[test]
fn margin_zero_keeps_a_proper_rect() {
    let r = Rect {
        pos: Point { x: 3, y: 4 },
        size: Size { w: 5, h: 6 },
    };
    assert_eq!(r.margin(0), r);
}

#[test]
fn relative_steps_in_units_of_own_size() {
    let r = Rect {
        pos: Point { x: 0, y: 0 },
        size: Size { w: 10, h: 20 },
    };
    let moved = r.relative([1, 1]);
    assert_eq!(
        moved,
        Rect {
            pos: Point { x: 10, y: 20 },
            size: Size { w: 10, h: 20 },
        }
    );
    let back = moved.relative([-1, -1]);
    assert_eq!(back, r);
}

#[test]
fn scaled_keeps_the_position() {
    let r = Rect {
        pos: Point { x: 7, y: 8 },
        size: Size { w: 10, h: 20 },
    };
    let s = r.scaled([3, -2]);
    assert_eq!(s.pos, r.pos);
    assert_eq!(s.size, Size { w: 30, h: -40 });
}

#[test]
fn centered_quadruples_the_area_around_pos() {
    let r = Rect {
        pos: Point { x: 5, y: 5 },
        size: Size { w: 2, h: 2 },
    };
    let c = r.centered();
    assert_eq!(
        c,
        Rect {
            pos: Point { x: 3, y: 3 },
            size: Size { w: 4, h: 4 },
        }
    );
    assert_eq!(c.right() - c.left(), 2 * (r.right() - r.left()));
}

#[test]
fn new_circle_circumscribes_the_circle() {
    let r = Rect::new_circle(Point { x: 0, y: 0 }, 3);
    assert_eq!(
        r,
        Rect {
            pos: Point { x: -3, y: -3 },
            size: Size { w: 6, h: 6 },
        }
    );
}

#[test]
fn new_square_anchors_at_pos() {
    let r = Rect::new_square(Point { x: 2, y: 3 }, 9);
    assert_eq!(r.pos, Point { x: 2, y: 3 });
    assert_eq!(r.size, Size { w: 9, h: 9 });
}
