use iso_286::bracket::size_brackets;
use iso_286::class::{class_indices, class_name, parse_tolerance_class};
use iso_286::deviation::{col_a_g, col_k_zc, delta, it_nm, limits_nm, um_to_nm};
use iso_286::fit::{absolute, band_error, best_fit, width_bound};
use iso_286::lookup::{checked_size, nm};
use iso_286::tables::DELTA;
use iso_286::{
    find_preferred, grades, hole_preferred_tolerances, limits, list_closest, list_preferred,
    shaft_preferred_tolerances, Error, Feature, Match, Tolerance,
};

const MM: i64 = 1_000_000;

// -- Tolerance classes and their names --

#[test]
fn class_names_round_trip() {
    for hole in [true, false] {
        for dev in 0..28 {
            for grade in 1..=20 {
                let name = class_name(hole, dev, grade);
                assert_eq!(class_indices(&name), Ok((hole, dev, grade)), "{name}");
            }
        }
    }
}

#[test]
fn class_names_spell_the_standard_notation() {
    assert_eq!(class_name(true, 10, 9), "H7");
    assert_eq!(class_name(false, 11, 6), "js4");
    assert_eq!(class_name(true, 27, 1), "ZC01");
    assert_eq!(class_name(false, 0, 2), "a0");
    assert_eq!(class_name(false, 3, 20), "cd18");
}

#[test]
fn parsing_splits_letters_from_digits() {
    assert_eq!(
        parse_tolerance_class("js4").unwrap(),
        (vec!['j', 's'], vec!['4'])
    );
    assert_eq!(
        parse_tolerance_class("ZC12").unwrap(),
        (vec!['Z', 'C'], vec!['1', '2'])
    );
    assert_eq!(
        parse_tolerance_class("7"),
        Err(Error::InvalidToleranceClass("7".to_string()))
    );
    assert!(parse_tolerance_class("H7x").is_err());
    assert!(parse_tolerance_class("H").is_err());
    assert!(parse_tolerance_class("").is_err());
}

#[test]
fn the_first_letter_picks_the_side() {
    // Letters are matched whatever their case; the case of the first says hole or shaft.
    assert_eq!(class_indices("Js7"), Ok((true, 11, 9)));
    assert_eq!(class_indices("jS7"), Ok((false, 11, 9)));
    assert_eq!(class_indices("H01"), Ok((true, 10, 1)));
    assert_eq!(class_indices("h0"), Ok((false, 10, 2)));
    assert_eq!(
        class_indices("H19"),
        Err(Error::InvalidToleranceClass("H19".to_string()))
    );
    assert_eq!(
        class_indices("Q7"),
        Err(Error::InvalidToleranceClass("Q7".to_string()))
    );
}

// -- Errors --

#[test]
fn each_error_names_its_input() {
    assert_eq!(limits(0, "H7"), Err(Error::SizeOutOfRange(0)));
    assert_eq!(
        limits(10 * MM, "Q7"),
        Err(Error::InvalidToleranceClass("Q7".to_string()))
    );
    assert_eq!(
        limits(600 * MM, "H01"),
        Err(Error::UnsupportedCombination {
            tolerance_class: "H01".to_string(),
            size: 600 * MM
        })
    );
    assert_eq!(
        list_closest(10 * MM, 15_000, 0, Feature::Shaft, false, 3, 9),
        Err(Error::InvalidPrecision(9))
    );
}

#[test]
fn the_size_is_checked_before_anything_else() {
    assert_eq!(limits(-3, "nonsense"), Err(Error::SizeOutOfRange(-3)));
    assert_eq!(
        list_closest(0, i64::MAX, 0, Feature::Hole, true, 3, 99),
        Err(Error::SizeOutOfRange(0))
    );
    assert_eq!(
        list_closest(MM, i64::MIN, 0, Feature::Hole, true, 3, 99),
        Err(Error::InvalidPrecision(99))
    );
}

#[test]
fn sizes_run_from_above_zero_to_3150_mm() {
    assert!(limits(1, "H7").is_ok());
    assert!(limits(3150 * MM, "H7").is_ok());
    assert_eq!(
        limits(3150 * MM + 1, "H7"),
        Err(Error::SizeOutOfRange(3150 * MM + 1))
    );
    assert_eq!(limits(-1, "H7"), Err(Error::SizeOutOfRange(-1)));
    assert_eq!(checked_size(1), Ok(1));
    assert_eq!(checked_size(MM), Ok(1));
    assert_eq!(checked_size(MM + 1), Ok(2));
    assert_eq!(checked_size(3150 * MM), Ok(3150));
    assert_eq!(nm(3150), 3150 * MM);
}

#[test]
fn rules_that_leave_a_class_undefined() {
    // a, b and A, B are not defined at 1 mm and below.
    assert!(matches!(limits(MM, "A11"), Err(Error::UnsupportedCombination { .. })));
    assert!(limits(MM + 1, "A11").is_ok());
    assert!(matches!(limits(MM, "b9"), Err(Error::UnsupportedCombination { .. })));
    // N above IT8 is not defined at 1 mm and below, nor above 500 mm.
    assert!(matches!(limits(MM, "N9"), Err(Error::UnsupportedCombination { .. })));
    assert!(limits(2 * MM, "N9").is_ok());
    assert!(matches!(limits(501 * MM, "N9"), Err(Error::UnsupportedCombination { .. })));
    // K above IT8 is not defined above 3 mm.
    assert!(limits(3 * MM, "K9").is_ok());
    assert!(matches!(limits(4 * MM, "K9"), Err(Error::UnsupportedCombination { .. })));
}

#[test]
fn any_wanted_deviation_is_answered_either_way_round() {
    for (upper, lower) in [
        (1_200_000_000_000_000_000, 0),
        (i64::MAX, i64::MIN),
        (i64::MIN, i64::MIN),
        (i64::MAX, 3),
    ] {
        for strict in [true, false] {
            let found = list_closest(10 * MM, upper, lower, Feature::Hole, strict, 3, 1).unwrap();
            let swapped = list_closest(10 * MM, lower, upper, Feature::Hole, strict, 3, 1).unwrap();
            assert_eq!(found.len(), 3);
            assert_eq!(found, swapped);
            assert!(found.windows(2).all(|w| w[0].error <= w[1].error));
        }
    }
}

// -- Tolerances --

#[test]
fn a_tolerance_reports_its_midpoint_rounded_toward_zero() {
    assert_eq!(
        Tolerance::from_int(15_000, 0),
        Tolerance {
            upper: 15_000,
            middle: 7_500,
            lower: 0
        }
    );
    assert_eq!(Tolerance::from_int(7, -2).middle, 2);
    assert_eq!(Tolerance::from_int(-7, -2).middle, -4);
    let m = Match::from_int(10 * MM, "H7".to_string(), (15_000, 0), 0);
    assert_eq!(m.tolerance(), limits(10 * MM, "H7").unwrap());
    assert_eq!(m.class, "H7");
    assert!(Feature::Hole.is_hole());
    assert!(!Feature::Shaft.is_hole());
}

#[test]
fn every_band_is_as_wide_as_its_grade() {
    for size in [1, 3, 10, 52, 400, 501, 3150] {
        for hole in [true, false] {
            for dev in 0..28 {
                for grade in 1..=20 {
                    if let Some((upper, lower)) = limits_nm(size, hole, dev, grade) {
                        assert_eq!(Some(upper - lower), it_nm(size, grade));
                        assert!(lower <= upper);
                        assert_eq!((upper + lower) % 2, 0);
                    }
                }
            }
        }
    }
}

#[test]
fn the_standard_tolerances_of_known_grades() {
    // IT7 at 10 mm is 15 um, IT6 at 30 mm 13 um, IT11 at 100 mm 220 um.
    assert_eq!(it_nm(10, 9), Some(15_000));
    assert_eq!(it_nm(30, 8), Some(13_000));
    assert_eq!(it_nm(100, 13), Some(220_000));
    // IT01 is not defined above 500 mm.
    assert_eq!(it_nm(600, 1), None);
    assert_eq!(um_to_nm(-1), None);
    assert_eq!(um_to_nm(12), Some(12_000));
    assert_eq!(col_a_g(3), 4);
    assert_eq!(col_k_zc(13), 1);
}

#[test]
fn delta_applies_to_grades_it3_to_it8_up_to_500_mm() {
    assert_eq!(delta(165, 10), 100 * DELTA[8][6] as i64);
    assert_eq!(delta(10, 10), 7_000);
    assert_eq!(delta(165, 5), 100 * DELTA[8][1] as i64);
    assert_eq!(delta(165, 9), 100 * DELTA[8][5] as i64);
    assert_eq!(delta(165, 4), 0);
    assert_eq!(delta(165, 11), 0);
    assert_eq!(delta(600, 7), 0);
}

#[test]
fn holes_k_to_n_take_the_increment_up_to_it8() {
    // At 10 mm: M8 +1/-21 um, K8 +6/-16 um, N8 -3/-25 um and N9 0/-36 um; P8, above IT7,
    // and K2, below IT3, take no increment.
    let expected = [
        ("M8", 1_000, -21_000),
        ("K8", 6_000, -16_000),
        ("N8", -3_000, -25_000),
        ("N9", 0, -36_000),
        ("P8", -15_000, -37_000),
        ("K2", -1_000, -2_500),
    ];
    for (class, upper, lower) in expected {
        let t = limits(10 * MM, class).unwrap();
        assert_eq!((t.upper, t.lower), (upper, lower), "{class}");
    }
    // N above IT8 keeps ES = -n up to 3 mm.
    let t = limits(2 * MM, "N9").unwrap();
    assert_eq!((t.upper, t.lower), (-4_000, -29_000));
    // M6 from 250 to 315 mm has ES = -9 um.
    assert_eq!(limits(300 * MM, "M6").unwrap().upper, -9_000);
}

#[test]
fn limits_hold_across_a_bracket() {
    let (brackets, _) = size_brackets(None);
    assert_eq!(brackets[0].0, 0);
    assert_eq!(brackets[brackets.len() - 1].1, 3150);
    for w in brackets.windows(2) {
        assert_eq!(w[0].1, w[1].0);
        assert!(w[0].0 < w[0].1);
    }
    for &(start, end) in &brackets {
        for size in [start + 1, (start + end + 1) / 2, end] {
            for hole in [true, false] {
                for dev in 0..28 {
                    for grade in 1..=20 {
                        assert_eq!(
                            limits_nm(size, hole, dev, grade),
                            limits_nm(end, hole, dev, grade),
                            "{size} in ({start}, {end}]"
                        );
                    }
                }
            }
        }
    }
    let (held, _) = size_brackets(Some(10));
    assert_eq!(held, vec![(6, 10)]);
    let (held, _) = size_brackets(Some(1));
    assert_eq!(held, vec![(0, 1)]);
}

// -- Distances between bands --

#[test]
fn band_error_counts_both_limits_and_the_midpoint() {
    // Upper 6 um low, lower 3 um low, midpoint 4.5 um low, all doubled.
    assert_eq!(
        band_error((10_015_000, 10_000_000), (10_021_000, 10_003_000)),
        27_000
    );
    assert_eq!(band_error((5, -5), (5, -5)), 0);
    assert_eq!(absolute(10 * MM, (15_000, 0)), (10_015_000, 10_000_000));
}

#[test]
fn no_placement_beats_the_width_bound() {
    let target: (i128, i128) = (10_021_000, 10_003_000);
    let limits = (15_000, 0);
    assert_eq!(width_bound(15_000, target), 6_000);
    let mut size = 9 * MM;
    while size <= 11 * MM {
        assert!(band_error(absolute(size, limits), target) >= 6_000);
        size += 500;
    }
}

#[test]
fn best_fit_is_the_best_placement_on_the_grid() {
    let limits = (15_000, 0);
    let target: (i128, i128) = (10_021_000, 10_003_000);
    // The midpoints coincide at 10.0045 mm; both neighbours on a micrometre grid tie, and
    // the smaller size is taken.
    assert_eq!(
        best_fit(limits, target, (10 * MM, 18 * MM), 1_000),
        (10_004_000, 7_000)
    );
    // Below the bracket it is held at the bracket's top.
    assert_eq!(
        best_fit(limits, target, (6 * MM, 10 * MM), 1_000),
        (10 * MM, 27_000)
    );
    for quantum in [1_000_000, 100_000, 10_000, 1_000] {
        for bracket in [(6 * MM, 10 * MM), (10 * MM, 18 * MM)] {
            let (size, error) = best_fit(limits, target, bracket, quantum);
            assert_eq!(size % quantum, 0);
            assert!(bracket.0 < size && size <= bracket.1);
            assert_eq!(error, band_error(absolute(size, limits), target));
            let mut s = bracket.0 + quantum;
            while s <= bracket.1 {
                assert!(band_error(absolute(s, limits), target) >= error);
                s += quantum;
            }
        }
    }
}

// -- Preferred classes --

#[test]
fn the_preferred_lists() {
    let holes = hole_preferred_tolerances();
    let shafts = shaft_preferred_tolerances();
    assert_eq!(holes.len(), 18);
    assert_eq!(shafts.len(), 18);
    assert!(holes.contains(&"A11".to_string()));
    assert!(holes.contains(&"H7".to_string()));
    assert!(!holes.contains(&"M7".to_string()));
    assert!(shafts.contains(&"g6".to_string()));
    assert!(shafts.contains(&"h6".to_string()));
    for class in holes.iter().chain(shafts.iter()) {
        assert!(limits(30 * MM, class).is_ok(), "{class}");
    }
}

#[test]
fn list_preferred_ranks_every_applicable_preferred_class() {
    let list = list_preferred(30 * MM, "h5").unwrap();
    let shafts = shaft_preferred_tolerances();
    let applicable = shafts
        .iter()
        .filter(|c| limits(30 * MM, c).is_ok())
        .count();
    assert_eq!(list.len(), applicable);
    assert_eq!(list[0].class, "h6");
    assert!(list.windows(2).all(|w| w[0].error <= w[1].error));
    assert_eq!(find_preferred(30 * MM, "h5").unwrap(), list[0]);
    assert_eq!(
        list_preferred(600 * MM, "H01"),
        Err(Error::UnsupportedCombination {
            tolerance_class: "H01".to_string(),
            size: 600 * MM
        })
    );
}

// -- The closest classes --

#[test]
fn strict_finds_an_exact_shaft() {
    let found = list_closest(30 * MM, 0, -13_000, Feature::Shaft, true, 1, 1).unwrap();
    assert_eq!(found.len(), 1);
    assert_eq!(found[0].class, "h6");
    assert_eq!(found[0].error, 0);
    assert_eq!(found[0].size, 30 * MM);
}

#[test]
fn ties_go_to_preferred_classes_then_the_smallest_move() {
    // Closest first, then preferred classes, then the smallest change to the nominal size,
    // then the tightest grade.
    let size = 10_370_000;
    let preferred = hole_preferred_tolerances();
    let grade_names = grades();
    let grade_of = |class: &str| {
        let digits = class.trim_start_matches(|c: char| c.is_ascii_alphabetic());
        grade_names.iter().position(|g| g == digits).unwrap()
    };
    let found = list_closest(size, 21_000, 3_000, Feature::Hole, false, 40, 2).unwrap();
    let keys: Vec<(i128, bool, i64, usize)> = found
        .iter()
        .map(|m| {
            (
                m.error,
                !preferred.contains(&m.class),
                (m.size - size).abs(),
                grade_of(&m.class),
            )
        })
        .collect();
    assert!(keys.windows(2).all(|w| w[0] <= w[1]), "{keys:?}");
}

#[test]
fn a_held_size_off_the_grid_is_kept_as_given() {
    let size = 10_370_123;
    for m in list_closest(size, 21_000, 3_000, Feature::Shaft, true, 10, 0).unwrap() {
        assert_eq!(m.size, size);
    }
    for m in list_closest(size, 21_000, 3_000, Feature::Shaft, false, 10, 0).unwrap() {
        assert_eq!(m.size % MM, 0);
    }
}

#[test]
fn the_free_head_beats_every_class_on_the_grid_nearby() {
    let (size, upper, lower): (i64, i64, i64) = (52_800_000, 30_000, -12_000);
    let target = ((size + upper) as i128, (size + lower) as i128);
    let head = &list_closest(size, upper, lower, Feature::Shaft, false, 1, 1).unwrap()[0];
    let shafts = iso_286::shaft_deviations();
    let mut nominal = 50 * MM;
    while nominal <= 56 * MM {
        for letters in &shafts {
            for grade in grades() {
                if let Ok(t) = limits(nominal, &format!("{letters}{grade}")) {
                    let error = band_error(absolute(nominal, (t.upper, t.lower)), target);
                    assert!(error >= head.error, "{nominal} {letters}{grade}");
                }
            }
        }
        nominal += 100_000;
    }
}

#[test]
fn a_held_search_lists_every_class_once_when_asked_for_all() {
    let size = MM;
    let found = list_closest(size, 10_000, 0, Feature::Hole, true, 5_000, 1).unwrap();
    let mut applicable = 0;
    for letters in iso_286::hole_deviations() {
        for grade in grades() {
            let class = format!("{letters}{grade}");
            if limits(size, &class).is_ok() {
                applicable += 1;
                assert_eq!(
                    found.iter().filter(|m| m.class == class).count(),
                    1,
                    "{class}"
                );
            }
        }
    }
    assert_eq!(found.len(), applicable);
    // Asking for fewer leaves out only classes no closer than the last one listed.
    let few = list_closest(size, 10_000, 0, Feature::Hole, true, 7, 1).unwrap();
    assert_eq!(few.len(), 7);
    for m in &found {
        if !few.iter().any(|f| f.class == m.class) {
            assert!(m.error >= few[6].error, "{}", m.class);
        }
    }
}

#[test]
fn band_error_is_symmetric_and_moves_with_both_bands() {
    let a = (10_015_000, 10_000_000);
    let b = (10_021_000, 10_003_000);
    assert_eq!(band_error(a, b), band_error(b, a));
    assert_eq!(
        band_error((a.0 + 777, a.1 + 777), (b.0 + 777, b.1 + 777)),
        band_error(a, b)
    );
    assert!(band_error(a, (a.0, a.1 + 1)) > 0);
}

#[test]
fn list_preferred_names_each_class_once() {
    let list = list_preferred(30 * MM, "M7").unwrap();
    let holes = hole_preferred_tolerances();
    for (i, m) in list.iter().enumerate() {
        assert!(holes.contains(&m.class));
        assert!(list[i + 1..].iter().all(|n| n.class != m.class), "{}", m.class);
        assert!(list[0].error <= m.error);
    }
    assert_eq!(list_preferred(30 * MM, "JS7").unwrap()[0].class, "JS7");
    assert_eq!(list_preferred(30 * MM, "Js7").unwrap()[0].class, "JS7");
}

#[test]
fn holes_mirror_shafts_where_no_increment_applies() {
    for size in [2, 10, 52, 400, 3150] {
        for dev in (0..=11).chain(16..28) {
            let first_grade = if dev >= 16 { 10 } else { 1 };
            for grade in first_grade..=20 {
                let mirrored = limits_nm(size, false, dev, grade).map(|(u, l)| (-l, -u));
                assert_eq!(limits_nm(size, true, dev, grade), mirrored, "{size} {dev} {grade}");
            }
        }
    }
}

#[test]
fn the_distance_functions_take_any_i64_values() {
    let big = i64::MAX as i128;
    let small = i64::MIN as i128;
    assert_eq!(band_error((big, small), (big, small)), 0);
    assert_eq!(band_error((big, 0), (0, 0)), 3 * big);
    assert_eq!(band_error((small, small), (big, big)), 6 * (big - small));
    assert_eq!(width_bound(i64::MAX, (0, 0)), 2 * big);
    assert_eq!(absolute(i64::MAX, (i64::MAX, i64::MIN)), (2 * big, -1));
    // A grid as coarse as a whole metre, with bands far off the nominal size.
    let (size, error) = best_fit(
        (i64::MIN / 2, i64::MIN / 2 - 10),
        (0, -10),
        (0, 4_000_000_000_000_000_000),
        1_000_000_000,
    );
    assert_eq!(size % 1_000_000_000, 0);
    assert_eq!(error, band_error(absolute(size, (i64::MIN / 2, i64::MIN / 2 - 10)), (0, -10)));
}

#[test]
fn every_preferred_class_heads_its_own_list_at_every_size() {
    for size in 1..=3150 {
        for class in hole_preferred_tolerances().iter().chain(shaft_preferred_tolerances().iter()) {
            if limits(size * MM, class).is_ok() {
                let head = &list_preferred(size * MM, class).unwrap()[0];
                assert_eq!(&head.class, class, "{class} at {size} mm");
                assert_eq!(head.error, 0);
            }
        }
    }
}

#[test]
fn holes_p_to_zc_add_the_increment_up_to_it7() {
    for size in [2, 10, 52, 400, 600] {
        for dev in 16..28 {
            for grade in 1..=20 {
                let expected = limits_nm(size, false, dev, grade).map(|(upper, lower)| {
                    let es = -lower + if grade < 10 { delta(size, grade) } else { 0 };
                    (es, es - (upper - lower))
                });
                assert_eq!(limits_nm(size, true, dev, grade), expected, "{size} {dev} {grade}");
            }
        }
    }
}

#[test]
fn the_standard_tolerance_holds_across_a_bracket() {
    let (brackets, _) = size_brackets(None);
    for &(start, end) in &brackets {
        for size in start + 1..=end {
            for grade in 1..=20 {
                assert_eq!(it_nm(size, grade), it_nm(end, grade), "{size} in ({start}, {end}]");
            }
        }
    }
}
