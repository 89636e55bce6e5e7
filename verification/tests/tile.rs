use geo_types::Point;
use nasadem::Angle;
use nasadem::DEMBox;
use nasadem::DegreePoint;
use nasadem::LatticePoint;
use nasadem::NASADEM;
use nasadem::SAMPLES;

fn degrees(angle: Angle) -> f64 {
    angle.degrees as f64 + angle.steps as f64 / 3601.0
}

fn point(p: &LatticePoint) -> Point<f64> {
    Point::new(degrees(p.x), degrees(p.y))
}

fn record(cell: &DEMBox) -> (LatticePoint, Option<u16>, Option<bool>) {
    (*cell.southwest_corner(), cell.elevation(), cell.is_water())
}

fn corner(lon: i32, column: u16, lat: i32, row: u16) -> LatticePoint {
    LatticePoint {
        x: Angle { degrees: lon, steps: column },
        y: Angle { degrees: lat, steps: row },
    }
}

#[test]
fn test_new() {
    let mut elevation_src = Vec::with_capacity(2 * SAMPLES);
    for idx in 0..SAMPLES {
        let sample = (idx % 4000) as u16;
        elevation_src.push((sample >> 8) as u8);
        elevation_src.push((sample & 0xff) as u8);
    }
    let water_src = vec![0u8; SAMPLES];

    let mut dem = NASADEM::new(DegreePoint::new(-106, 38));
    dem.add_elevation(&elevation_src).unwrap();
    dem.add_water(&water_src).unwrap();

    let mut iter = dem.iter();
    let dbox_0_0 = iter.next().unwrap();
    assert_eq!(
        &point(dbox_0_0.southwest_corner()),
        &Point::new(-106.0, 38.99972229936129)
    );
}

#[test]
fn new_tile_has_no_grids() {
    let tile = NASADEM::new(DegreePoint::new(-106, 38));
    let mut cursor = tile.iter();
    let cell = cursor.next().unwrap();
    assert_eq!(cell.elevation(), None);
    assert_eq!(cell.is_water(), None);
    assert_eq!(*cell.southwest_corner(), corner(-106, 0, 38, 3600));
}

#[test]
fn iteration_yields_one_cell_per_sample() {
    let tile = NASADEM::new(DegreePoint::new(-106, 38));
    let mut cursor = tile.iter();
    let mut count: usize = 0;
    while let Some(_) = cursor.next() {
        count += 1;
    }
    assert_eq!(count, 3601 * 3601);
    assert!(cursor.next().is_none());
    assert!(cursor.next().is_none());
}

#[test]
fn iteration_after_elevation_load_yields_one_cell_per_sample() {
    let bytes = vec![1u8; 2 * SAMPLES];
    let mut tile = NASADEM::new(DegreePoint::new(-106, 38));
    tile.add_elevation(&bytes).unwrap();
    let mut cursor = tile.iter();
    let mut count: usize = 0;
    while let Some(cell) = cursor.next() {
        assert_eq!(cell.elevation(), Some(257));
        count += 1;
    }
    assert_eq!(count, 3601 * 3601);
}

#[test]
fn iteration_follows_storage_order() {
    let tile = NASADEM::new(DegreePoint::new(-106, 38));
    let mut cursor = tile.iter();
    for row in (0..=3600u16).rev() {
        for column in 0..=3600u16 {
            let cell = cursor.next().unwrap();
            assert_eq!(*cell.southwest_corner(), corner(-106, column, 38, row));
        }
    }
    assert!(cursor.next().is_none());
}

#[test]
fn last_cell_sits_on_the_southern_edge() {
    let tile = NASADEM::new(DegreePoint::new(-106, 38));
    let mut cursor = tile.iter();
    let mut last = None;
    while let Some(cell) = cursor.next() {
        last = Some(cell);
    }
    let last = last.unwrap();
    assert_eq!(*last.southwest_corner(), corner(-106, 3600, 38, 0));
    assert_eq!(
        point(last.southwest_corner()),
        Point::new(-106.0 + 3600.0 / 3601.0, 38.0)
    );
}

#[test]
fn iteration_can_be_started_again() {
    let mut elevation = Vec::with_capacity(2 * SAMPLES);
    let mut water = Vec::with_capacity(SAMPLES);
    for idx in 0..SAMPLES {
        let sample = (idx % 9973) as u16;
        elevation.push((sample >> 8) as u8);
        elevation.push((sample & 0xff) as u8);
        water.push(if idx % 5 == 0 { 255 } else { 0 });
    }
    let mut tile = NASADEM::new(DegreePoint::new(11, 47));
    tile.add_elevation(&elevation).unwrap();
    tile.add_water(&water).unwrap();

    let mut first = tile.iter();
    let mut second = tile.iter();
    let mut count: usize = 0;
    loop {
        let a = first.next();
        let b = second.next();
        match (a, b) {
            (Some(a), Some(b)) => {
                assert_eq!(record(&a), record(&b));
                count += 1;
            }
            (None, None) => break,
            _ => panic!("one cursor ended before the other"),
        }
    }
    assert_eq!(count, SAMPLES);
}

#[test]
fn cursors_do_not_disturb_each_other() {
    let tile = NASADEM::new(DegreePoint::new(11, 47));
    let mut first = tile.iter();
    for _ in 0..5000 {
        first.next().unwrap();
    }
    let mut second = tile.iter();
    assert_eq!(
        *second.next().unwrap().southwest_corner(),
        corner(11, 0, 47, 3600)
    );
    assert_eq!(
        *first.next().unwrap().southwest_corner(),
        corner(11, 1399, 47, 3599)
    );
    assert_eq!(
        *second.next().unwrap().southwest_corner(),
        corner(11, 1, 47, 3600)
    );
}

#[test]
fn cells_carry_their_own_samples() {
    let mut elevation = vec![0u8; 2 * SAMPLES];
    let mut water = vec![0u8; SAMPLES];
    // The sample one row down and two columns in.
    let idx = 3601 + 2;
    elevation[2 * idx] = 0x0b;
    elevation[2 * idx + 1] = 0xb8;
    water[idx] = 255;
    let mut tile = NASADEM::new(DegreePoint::new(-106, 38));
    tile.add_elevation(&elevation).unwrap();
    tile.add_water(&water).unwrap();
    let mut cursor = tile.iter();
    for _ in 0..idx {
        let cell = cursor.next().unwrap();
        assert_eq!(cell.elevation(), Some(0));
        assert_eq!(cell.is_water(), Some(false));
    }
    let cell = cursor.next().unwrap();
    assert_eq!(record(&cell), (corner(-106, 2, 38, 3599), Some(3000), Some(true)));
    let cell = cursor.next().unwrap();
    assert_eq!(record(&cell), (corner(-106, 3, 38, 3599), Some(0), Some(false)));
}
