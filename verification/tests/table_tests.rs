use chartplan::table::longest_column;
use chartplan::{align_columns, format_row, format_table, TableError};

fn formatted(columns: &[Vec<f64>]) -> Vec<Vec<String>> {
    columns.iter().map(|c| c.iter().map(|v| format!("{:.6}", v)).collect()).collect()
}

#[test]
fn ragged_columns_give_three_rows() {
    let columns = formatted(&[vec![0.0, 1.0, 2.0], vec![10.0, 20.0], vec![7.0, 8.0, 9.0]]);
    let lines = format_table(&columns).unwrap();
    assert_eq!(
        lines,
        vec![
            String::from("0.000000 10.000000 7.000000\n"),
            String::from("1.000000 20.000000 8.000000\n"),
            String::from("2.000000 NAN 9.000000\n"),
        ]
    );
    let grid = align_columns(&columns).unwrap();
    let rows: Vec<String> = grid.rows.iter().map(format_row).collect();
    assert_eq!(
        rows,
        vec![
            String::from("0.000000 10.000000 7.000000"),
            String::from("1.000000 20.000000 8.000000"),
            String::from("2.000000 NAN 9.000000"),
        ]
    );
}

#[test]
fn written_table_reads_back_with_the_sentinel_in_place() {
    let columns = formatted(&[
        vec![0.0, 0.5, 1.0, 1.5, 2.0],
        vec![3.0, 4.0, 5.0],
        vec![-1.0, -2.0, -3.0, -4.0, -5.0],
    ]);
    let text: String = format_table(&columns).unwrap().concat();
    let rows: Vec<Vec<&str>> = text.lines().map(|l| l.split(' ').collect()).collect();
    assert_eq!(rows.len(), 5);
    for (j, row) in rows.iter().enumerate() {
        assert_eq!(row.len(), 3);
        for (i, cell) in row.iter().enumerate() {
            if i == 1 && j >= 3 {
                assert_eq!(*cell, "NAN");
            } else {
                assert_ne!(*cell, "NAN");
                let value: f64 = cell.parse().unwrap();
                assert_eq!(format!("{:.6}", value), columns[i][j]);
            }
        }
    }
}

#[test]
fn equal_columns_give_their_length_in_rows_and_no_sentinel() {
    for len in [1usize, 2, 7] {
        let columns: Vec<Vec<f64>> =
            (0..4).map(|i| (0..len).map(|j| (i * 10 + j) as f64).collect()).collect();
        let grid = align_columns(&columns).unwrap();
        assert_eq!(grid.rows.len(), len);
        for (j, row) in grid.rows.iter().enumerate() {
            assert_eq!(row.len(), 4);
            for (i, cell) in row.iter().enumerate() {
                assert_eq!(*cell, Some(&columns[i][j]));
            }
        }
        let lines = format_table(&formatted(&columns)).unwrap();
        assert_eq!(lines.len(), len);
        assert!(lines.iter().all(|l| !l.contains("NAN")));
    }
}

#[test]
fn grid_of_numbers_is_aligned() {
    let columns: Vec<Vec<f64>> = vec![vec![1.0], vec![2.0, 3.0, 4.0], vec![]];
    let grid = align_columns(&columns).unwrap();
    assert_eq!(
        grid.rows,
        vec![
            vec![Some(&1.0), Some(&2.0), None],
            vec![None, Some(&3.0), None],
            vec![None, Some(&4.0), None],
        ]
    );
}

#[test]
fn no_columns_give_no_table() {
    let none: Vec<Vec<String>> = Vec::new();
    assert_eq!(format_table(&none), Err(TableError::NoColumns));
    let none: Vec<Vec<f64>> = Vec::new();
    assert_eq!(align_columns(&none).map(|g| g.rows.len()), Err(TableError::NoColumns));
}

#[test]
fn empty_columns_give_an_empty_table() {
    let columns: Vec<Vec<String>> = vec![Vec::new(), Vec::new()];
    assert_eq!(format_table(&columns), Ok(Vec::new()));
}

#[test]
fn a_single_column_has_no_separator() {
    let columns = formatted(&[vec![1.5, -2.25]]);
    assert_eq!(
        format_table(&columns).unwrap(),
        vec![String::from("1.500000\n"), String::from("-2.250000\n")]
    );
}

#[test]
fn format_row_joins_with_single_spaces() {
    let a = String::from("a");
    let b = String::from("bc");
    assert_eq!(format_row(&vec![Some(&a), None, Some(&b), None]), "a NAN bc NAN");
    assert_eq!(format_row(&vec![None]), "NAN");
    assert_eq!(format_row(&vec![Some(&b)]), "bc");
    assert_eq!(format_row(&Vec::new()), "");
}

#[test]
fn longest_column_is_the_maximum() {
    assert_eq!(longest_column(&vec![vec![1u8; 5], vec![1u8; 3], vec![1u8; 5]]), 5);
    assert_eq!(longest_column(&vec![vec![1u8; 2], vec![1u8; 9], vec![]]), 9);
    assert_eq!(longest_column::<u8>(&Vec::new()), 0);
    assert_eq!(longest_column::<u8>(&vec![Vec::new()]), 0);
}
