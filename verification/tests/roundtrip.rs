use binext::records::Sample;
use binext::BinaryRead;
use binext::BinaryWrite;
use binext::ByteCursor;
use binext::IoError;

fn random_sample() -> Sample {
    Sample {
        f: rand::random(),
        d: rand::random::<u64>() as usize,
        g: rand::random(),
    }
}

fn write_buffer() -> Result<(Sample, ByteCursor), IoError> {
    let test = random_sample();
    let mut buf = Vec::new();

    buf.write_binary(&test)?;

    Ok((test, ByteCursor::new(buf)))
}

#[test]
fn read_write_buffer() -> Result<(), IoError> {
    let (original, mut buf) = write_buffer()?;
    let test = buf.read_binary::<Sample>()?;

    assert_eq!(original, test);
    Ok(())
}

#[test]
fn read_write_buffer_boxed() -> Result<(), IoError> {
    let (original, mut buf) = write_buffer()?;
    let test = buf.read_binary_boxed::<Sample>()?;

    assert_eq!(original, *test);
    Ok(())
}
