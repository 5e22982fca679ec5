use sales_forecast::data::SEASON;
use sales_forecast::season::SeasonalBuffer;

#[test]
fn new_buffer_stands_at_step_one_and_refers_to_the_unit() {
    let buffer: SeasonalBuffer<u32> = SeasonalBuffer::new(1);
    assert_eq!(buffer.step(), 1);
    assert_eq!(buffer.reference(), 1);
    assert_eq!(buffer.finalized(), vec![1; SEASON]);
}

#[test]
fn index_referred_to_is_the_one_computed_a_season_before() {
    let unit: u32 = 0;
    let mut buffer = SeasonalBuffer::new(unit);
    for step in 1..60_usize {
        assert_eq!(buffer.step(), step);
        let expected = if step > SEASON {
            1000 + (step - SEASON) as u32
        } else {
            unit
        };
        assert_eq!(buffer.reference(), expected, "at step {}", step);
        buffer.record(1000 + step as u32);
    }
}

#[test]
fn index_computed_within_the_season_is_never_referred_to() {
    let mut buffer: SeasonalBuffer<f32> = SeasonalBuffer::new(1.0);
    // the first full season refers to the unit only, whatever it computes
    for step in 1..=SEASON {
        assert_eq!(buffer.reference(), 1.0, "at step {}", step);
        buffer.record(step as f32 * 0.5);
    }
    // step 13 refers to what step 1 computed, not to what step 12 did
    assert_eq!(buffer.reference(), 0.5);
}

#[test]
fn finalized_row_holds_the_latest_index_of_each_phase() {
    let mut buffer: SeasonalBuffer<u32> = SeasonalBuffer::new(1);
    for step in 1..48_u32 {
        buffer.record(step * 10);
    }
    let row = buffer.finalized();
    assert_eq!(row, vec![360, 370, 380, 390, 400, 410, 420, 430, 440, 450, 460, 470]);
}

#[test]
fn finalized_row_of_a_broken_season_mixes_two_seasons() {
    let mut buffer: SeasonalBuffer<u32> = SeasonalBuffer::new(1);
    for step in 1..30_u32 {
        buffer.record(step * 10);
    }
    let row = buffer.finalized();
    assert_eq!(row, vec![240, 250, 260, 270, 280, 290, 180, 190, 200, 210, 220, 230]);
}

#[test]
fn finalized_row_of_a_short_run_keeps_the_unit_where_no_step_fell() {
    let mut buffer: SeasonalBuffer<u32> = SeasonalBuffer::new(1);
    for step in 1..5_u32 {
        buffer.record(step * 10);
    }
    let row = buffer.finalized();
    assert_eq!(row, vec![1, 10, 20, 30, 40, 1, 1, 1, 1, 1, 1, 1]);
}
