//! MPU6050 IMU protocol constants, raw-burst parsing and accelerometer
//! calibration: [`RawReading`], [`parse_raw`], [`apply_offsets`],
//! [`AccelOffsets`] and [`AccelCalibration`].
//!
//! The I2C transport is left to the caller: this module only interprets the
//! datasheet's register map and byte layout and accumulates calibration
//! offsets. Initialise the sensor by writing each `(register, value)` pair of
//! [`INIT_SEQUENCE`] in order, then burst-read 14 bytes from
//! [`REG_ACCEL_XOUT_H`] and pass them to [`parse_raw`].
use vstd::prelude::*;

verus! {

/// Primary I2C address (AD0 pin low).
pub const I2C_ADDR: u8 = 0x68;

/// Alternate I2C address (AD0 pin high).
pub const I2C_ADDR_ALT: u8 = 0x69;

/// Power management register 1. Write `0x00` to wake from sleep.
pub const REG_PWR_MGMT_1: u8 = 0x6B;

/// Accelerometer configuration register. Write `0x00` for +/-2g full scale.
pub const REG_ACCEL_CONFIG: u8 = 0x1C;

/// Gyroscope configuration register. Write `0x00` for +/-250 deg/s.
pub const REG_GYRO_CONFIG: u8 = 0x1B;

/// Sample rate divider register (`8 kHz / (1 + SMPLRT_DIV)`).
pub const REG_SMPLRT_DIV: u8 = 0x19;

/// Configuration register (digital low-pass filter bandwidth).
pub const REG_CONFIG: u8 = 0x1A;

/// Who-Am-I register. Read to verify device identity.
pub const REG_WHO_AM_I: u8 = 0x75;

/// Expected value of [`REG_WHO_AM_I`] for a genuine MPU6050.
pub const WHO_AM_I_VALUE: u8 = 0x68;

/// First register of the 14-byte accelerometer + temperature + gyro burst.
pub const REG_ACCEL_XOUT_H: u8 = 0x3B;

/// The 1g reference in LSB for the +/-2g accelerometer range.
pub const ONE_G_LSB: i32 = 16384;

/// Startup init sequence: write each `(register, value)` pair in order
/// (wake, ~44 Hz DLPF, ~100 Hz sample rate, +/-2g, +/-250 deg/s).
pub const INIT_SEQUENCE: [(u8, u8); 5] = [
    (REG_PWR_MGMT_1, 0x00),
    (REG_CONFIG, 0x03),
    (REG_SMPLRT_DIV, 0x09),
    (REG_ACCEL_CONFIG, 0x00),
    (REG_GYRO_CONFIG, 0x00),
];

/// The signed 16-bit value of the big-endian two's-complement byte pair
/// `(hi, lo)`.
pub open spec fn be_i16(hi: u8, lo: u8) -> int {
    let v = hi * 256 + lo;
    if v < 32768 {
        v
    } else {
        v - 65536
    }
}

fn i16_from_be(hi: u8, lo: u8) -> (r: i16)
    ensures
        r == be_i16(hi, lo),
{
    let v: u32 = hi as u32 * 256 + lo as u32;
    if v < 32768 {
        v as i16
    } else {
        (v as i32 - 65536) as i16
    }
}

/// Raw sensor reading from a 14-byte MPU6050 burst, in sensor LSBs. The
/// temperature word is not kept. The only way to obtain one is
/// [`parse_raw`].
#[derive(Debug, Clone, Copy, PartialEq, Eq, Structural)]
pub struct RawReading {
    accel_x: i16,
    accel_y: i16,
    accel_z: i16,
    gyro_x: i16,
    gyro_y: i16,
    gyro_z: i16,
}

/// The reading parsed from a 14-byte burst: six big-endian `i16` words at
/// byte offsets 0, 2, 4 (accelerometer X/Y/Z) and 8, 10, 12 (gyroscope
/// X/Y/Z); bytes 6-7 (temperature) are skipped.
pub open spec fn parse_spec(buf: Seq<u8>) -> RawReading {
    RawReading::from_words(
        be_i16(buf[0], buf[1]) as i16,
        be_i16(buf[2], buf[3]) as i16,
        be_i16(buf[4], buf[5]) as i16,
        be_i16(buf[8], buf[9]) as i16,
        be_i16(buf[10], buf[11]) as i16,
        be_i16(buf[12], buf[13]) as i16,
    )
}

impl RawReading {
    /// The reading with the given axis values.
    pub closed spec fn from_words(ax: i16, ay: i16, az: i16, gx: i16, gy: i16, gz: i16) -> RawReading {
        RawReading { accel_x: ax, accel_y: ay, accel_z: az, gyro_x: gx, gyro_y: gy, gyro_z: gz }
    }

    /// The accelerometer X axis.
    pub closed spec fn accel_x_spec(self) -> i16 {
        self.accel_x
    }

    /// The accelerometer Y axis.
    pub closed spec fn accel_y_spec(self) -> i16 {
        self.accel_y
    }

    /// The accelerometer Z axis.
    pub closed spec fn accel_z_spec(self) -> i16 {
        self.accel_z
    }

    /// The gyroscope X axis.
    pub closed spec fn gyro_x_spec(self) -> i16 {
        self.gyro_x
    }

    /// The gyroscope Y axis.
    pub closed spec fn gyro_y_spec(self) -> i16 {
        self.gyro_y
    }

    /// The gyroscope Z axis.
    pub closed spec fn gyro_z_spec(self) -> i16 {
        self.gyro_z
    }

    /// The axis accessors read back the words a reading was built from.
    pub proof fn lemma_from_words(ax: i16, ay: i16, az: i16, gx: i16, gy: i16, gz: i16)
        ensures
            ({
                let r = RawReading::from_words(ax, ay, az, gx, gy, gz);
                &&& r.accel_x_spec() == ax
                &&& r.accel_y_spec() == ay
                &&& r.accel_z_spec() == az
                &&& r.gyro_x_spec() == gx
                &&& r.gyro_y_spec() == gy
                &&& r.gyro_z_spec() == gz
            }),
    {
    }

    /// Returns the accelerometer X axis, raw LSBs.
    pub fn accel_x(self) -> (r: i16)
        ensures
            r == self.accel_x_spec(),
    {
        self.accel_x
    }

    /// Returns the accelerometer Y axis, raw LSBs.
    pub fn accel_y(self) -> (r: i16)
        ensures
            r == self.accel_y_spec(),
    {
        self.accel_y
    }

    /// Returns the accelerometer Z axis, raw LSBs.
    pub fn accel_z(self) -> (r: i16)
        ensures
            r == self.accel_z_spec(),
    {
        self.accel_z
    }

    /// Returns the gyroscope X axis, raw LSBs.
    pub fn gyro_x(self) -> (r: i16)
        ensures
            r == self.gyro_x_spec(),
    {
        self.gyro_x
    }

    /// Returns the gyroscope Y axis, raw LSBs.
    pub fn gyro_y(self) -> (r: i16)
        ensures
            r == self.gyro_y_spec(),
    {
        self.gyro_y
    }

    /// Returns the gyroscope Z axis, raw LSBs.
    pub fn gyro_z(self) -> (r: i16)
        ensures
            r == self.gyro_z_spec(),
    {
        self.gyro_z
    }
}

/// Parses a 14-byte MPU6050 burst read into a [`RawReading`]. Parsing is
/// total: the fixed-size buffer rules out short reads.
pub fn parse_raw(buf: &[u8; 14]) -> (r: RawReading)
    ensures
        r == parse_spec(buf@),
        r.accel_x_spec() == be_i16(buf@[0], buf@[1]),
        r.accel_y_spec() == be_i16(buf@[2], buf@[3]),
        r.accel_z_spec() == be_i16(buf@[4], buf@[5]),
        r.gyro_x_spec() == be_i16(buf@[8], buf@[9]),
        r.gyro_y_spec() == be_i16(buf@[10], buf@[11]),
        r.gyro_z_spec() == be_i16(buf@[12], buf@[13]),
{
    RawReading {
        accel_x: i16_from_be(buf[0], buf[1]),
        accel_y: i16_from_be(buf[2], buf[3]),
        accel_z: i16_from_be(buf[4], buf[5]),
        gyro_x: i16_from_be(buf[8], buf[9]),
        gyro_y: i16_from_be(buf[10], buf[11]),
        gyro_z: i16_from_be(buf[12], buf[13]),
    }
}

/// The temperature bytes (6 and 7) never affect the parsed reading.
pub proof fn lemma_temperature_ignored(a: Seq<u8>, b: Seq<u8>)
    requires
        a.len() == 14,
        b.len() == 14,
        forall|i: int| 0 <= i < 14 && i != 6 && i != 7 ==> a[i] == b[i],
    ensures
        parse_spec(a) == parse_spec(b),
{
    assert(a[0] == b[0] && a[1] == b[1] && a[2] == b[2] && a[3] == b[3] && a[4] == b[4] && a[5] == b[5]);
    assert(a[8] == b[8] && a[9] == b[9] && a[10] == b[10] && a[11] == b[11] && a[12] == b[12] && a[13] == b[13]);
}

/// Applies Y/Z calibration offsets to a raw reading, returning the corrected
/// values `(accel_y - off_y, accel_z - off_z)` widened to `i32`. Requires the
/// differences to fit `i32` (always the case for offsets from
/// [`AccelCalibration::offsets`]).
pub fn apply_offsets(reading: &RawReading, off_y: i32, off_z: i32) -> (r: (i32, i32))
    requires
        i32::MIN <= reading.accel_y_spec() - off_y <= i32::MAX,
        i32::MIN <= reading.accel_z_spec() - off_z <= i32::MAX,
    ensures
        r.0 == reading.accel_y_spec() - off_y,
        r.1 == reading.accel_z_spec() - off_z,
{
    (reading.accel_y() as i32 - off_y, reading.accel_z() as i32 - off_z)
}

/// Accelerometer Y/Z offsets produced by [`AccelCalibration::offsets`].
#[derive(Debug, Clone, Copy, PartialEq, Eq, Structural, Hash)]
pub struct AccelOffsets {
    /// Y-axis calibration offset, in raw accelerometer LSBs.
    pub y: i32,
    /// Z-axis calibration offset, in raw accelerometer LSBs.
    pub z: i32,
}

impl Default for AccelOffsets {
    fn default() -> (r: Self)
        ensures
            r == (AccelOffsets { y: 0, z: 0 }),
    {
        AccelOffsets { y: 0, z: 0 }
    }
}

/// Rust's integer division, truncating toward zero.
pub open spec fn trunc_div(a: int, b: int) -> int {
    if a >= 0 && b > 0 {
        a / b
    } else if a < 0 && b < 0 {
        (-a) / (-b)
    } else if a < 0 {
        -((-a) / b)
    } else {
        -(a / (-b))
    }
}

/// The `/` of signed machine integers (as Verus models it) truncates toward
/// zero.
proof fn lemma_exec_div_is_trunc(a: int, b: int)
    requires
        b != 0,
    ensures
        (if a >= 0 {
            a / b
        } else {
            -((-a) / b)
        }) == trunc_div(a, b),
{
    if b < 0 {
        if a >= 0 {
            assert(a / b == -(a / (-b))) by (nonlinear_arith)
                requires
                    b < 0,
                    a >= 0,
            ;
        } else {
            assert((-a) / b == -((-a) / (-b))) by (nonlinear_arith)
                requires
                    b < 0,
                    -a > 0,
            ;
        }
    }
}

/// The truncated average of `count` `i16` samples is itself an `i16`.
proof fn lemma_average_of_i16_samples(sum: int, count: int)
    requires
        count > 0,
        -32768 * count <= sum <= 32767 * count,
    ensures
        -32768 <= trunc_div(sum, count) <= 32767,
{
    if sum >= 0 {
        assert(sum / count <= 32767) by (nonlinear_arith)
            requires
                0 <= sum <= 32767 * count,
                count > 0,
        ;
        assert(sum / count >= 0) by (nonlinear_arith)
            requires
                0 <= sum,
                count > 0,
        ;
    } else {
        assert((-sum) / count <= 32768) by (nonlinear_arith)
            requires
                0 < -sum <= 32768 * count,
                count > 0,
        ;
        assert((-sum) / count >= 0) by (nonlinear_arith)
            requires
                0 < -sum,
                count > 0,
        ;
    }
}

/// The offsets never overflow, for any number of `i16` samples: the
/// averages are `i16` values and the 1g subtraction stays far inside `i32`.
pub proof fn lemma_offsets_in_range(sum_y: int, sum_z: int, count: u32)
    requires
        0 < count,
        -32768 * count <= sum_y <= 32767 * count,
        -32768 * count <= sum_z <= 32767 * count,
    ensures
        -32768 <= trunc_div(sum_y, count as int) <= 32767,
        -32768 - ONE_G_LSB <= trunc_div(sum_z, count as int) - ONE_G_LSB <= 32767 - ONE_G_LSB,
{
    lemma_average_of_i16_samples(sum_y, count as int);
    lemma_average_of_i16_samples(sum_z, count as int);
}

/// Accelerometer Y/Z calibration accumulator.
///
/// Collects raw accelerometer samples at rest and computes average offsets,
/// so that the sensor reads zero on Y and 1g on Z in its neutral orientation.
#[derive(Debug, Clone, Copy)]
pub struct AccelCalibration {
    sum_y: i32,
    sum_z: i32,
    count: u32,
}

impl AccelCalibration {
    /// The sums are sums of `count` `i16` samples.
    #[verifier::type_invariant]
    spec fn inv(self) -> bool {
        &&& -32768 * self.count <= self.sum_y <= 32767 * self.count
        &&& -32768 * self.count <= self.sum_z <= 32767 * self.count
    }

    /// The sum of the Y samples.
    pub closed spec fn sum_y_spec(self) -> i32 {
        self.sum_y
    }

    /// The sum of the Z samples.
    pub closed spec fn sum_z_spec(self) -> i32 {
        self.sum_z
    }

    /// The number of samples.
    pub closed spec fn count_spec(self) -> u32 {
        self.count
    }

    /// The offsets for these sums: all zero without samples, otherwise the
    /// average Y and the average Z minus the 1g reference, each average
    /// truncated toward zero.
    pub open spec fn offsets_spec(self) -> (int, int) {
        if self.count_spec() == 0 {
            (0, 0)
        } else {
            (
                trunc_div(self.sum_y_spec() as int, self.count_spec() as int),
                trunc_div(self.sum_z_spec() as int, self.count_spec() as int) - ONE_G_LSB,
            )
        }
    }

    /// Creates a new empty accumulator.
    pub fn new() -> (r: Self)
        ensures
            r.sum_y_spec() == 0,
            r.sum_z_spec() == 0,
            r.count_spec() == 0,
    {
        Self { sum_y: 0, sum_z: 0, count: 0 }
    }

    /// Feeds one accelerometer sample. Requires the running sums and the
    /// count not to overflow.
    pub fn add_sample(&mut self, accel_y: i16, accel_z: i16)
        requires
            i32::MIN <= old(self).sum_y_spec() + accel_y <= i32::MAX,
            i32::MIN <= old(self).sum_z_spec() + accel_z <= i32::MAX,
            old(self).count_spec() < u32::MAX,
        ensures
            final(self).sum_y_spec() == old(self).sum_y_spec() + accel_y,
            final(self).sum_z_spec() == old(self).sum_z_spec() + accel_z,
            final(self).count_spec() == old(self).count_spec() + 1,
    {
        proof {
            use_type_invariant(&*self);
        }
        *self = Self {
            sum_y: self.sum_y + accel_y as i32,
            sum_z: self.sum_z + accel_z as i32,
            count: self.count + 1,
        };
    }

    /// Returns the number of samples collected.
    pub fn count(&self) -> (r: u32)
        ensures
            r == self.count_spec(),
    {
        self.count
    }

    /// Computes the calibration offsets: `y` is the average Y reading and `z`
    /// the average Z reading minus 1g (`16384` LSB at +/-2g), each average
    /// truncated toward zero. Both are zero if no samples have been
    /// collected. Never overflows, whatever the number of samples.
    pub fn offsets(&self) -> (r: AccelOffsets)
        ensures
            (r.y as int, r.z as int) == self.offsets_spec(),
    {
        proof {
            use_type_invariant(self);
        }
        if self.count == 0 {
            return AccelOffsets::default();
        }
        proof {
            lemma_offsets_in_range(self.sum_y as int, self.sum_z as int, self.count);
        }
        let count = self.count as i64;
        let qy = self.sum_y as i64 / count;
        let qz = self.sum_z as i64 / count;
        proof {
            lemma_exec_div_is_trunc(self.sum_y as int, count as int);
            lemma_exec_div_is_trunc(self.sum_z as int, count as int);
        }
        let y = qy as i32;
        let z = qz as i32 - ONE_G_LSB;
        AccelOffsets { y, z }
    }
}

impl Default for AccelCalibration {
    fn default() -> (r: Self)
        ensures
            r.sum_y_spec() == 0,
            r.sum_z_spec() == 0,
            r.count_spec() == 0,
    {
        Self::new()
    }
}

} // verus!
