//! BME280 environmental sensor: calibration decoding, measurement decoding and the
//! Bosch Sensortec 32-bit integer compensation formulas.
//!
//! Temperatures are given in hundredths of a degree Celsius, relative humidity in
//! 1/1024 of a percent. Arithmetic shifts to the right are floor divisions by powers of two.
use vstd::prelude::*;
use vstd::string::StringExecFns;

verus! {

pub const BME280_I2C_ADDR_PRIMARY: u8 = 0x76;

pub const BME280_I2C_ADDR_SECONDARY: u8 = 0x77;

pub const BME280_CHIP_ID: u8 = 0x60;

/// The calibration words of a sensor.
#[derive(Debug, Clone, Copy)]
pub struct Bme280Calibration {
    pub dig_t1: u16,
    pub dig_t2: i16,
    pub dig_t3: i16,
    pub dig_h1: u8,
    pub dig_h2: i16,
    pub dig_h3: u8,
    pub dig_h4: i16,
    pub dig_h5: i16,
    pub dig_h6: i8,
}

impl Default for Bme280Calibration {
    fn default() -> (c: Self)
        ensures
            c.dig_t1 == 0 && c.dig_t2 == 0 && c.dig_t3 == 0 && c.dig_h1 == 0 && c.dig_h2 == 0
                && c.dig_h3 == 0 && c.dig_h4 == 0 && c.dig_h5 == 0 && c.dig_h6 == 0,
    {
        Bme280Calibration {
            dig_t1: 0,
            dig_t2: 0,
            dig_t3: 0,
            dig_h1: 0,
            dig_h2: 0,
            dig_h3: 0,
            dig_h4: 0,
            dig_h5: 0,
            dig_h6: 0,
        }
    }
}

pub open spec fn fits_i32(x: int) -> bool {
    i32::MIN <= x <= i32::MAX
}

/// `x` reduced to 32 bits, as a left shift of an `i32` does.
pub open spec fn wrap_i32(x: int) -> int {
    (x as i32) as int
}

// ---------------------------------------------------------------------------------------
// Shifts
// ---------------------------------------------------------------------------------------

proof fn lemma_floor(x: int, d: int, q: int, r: int)
    requires
        d > 0,
        0 <= r < d,
        x == q * d + r,
    ensures
        x / d == q,
{
    vstd::arithmetic::div_mod::lemma_fundamental_div_mod_converse(x, d, q, r);
}

proof fn lemma_shr3(x: i32)
    ensures
        (x >> 3i32) as int == x as int / 8,
{
    assert(x == 8 * (x >> 3i32) + (x & 7i32) && 0 <= (x & 7i32) < 8) by (bit_vector);
    lemma_floor(x as int, 8, (x >> 3i32) as int, (x & 7i32) as int);
}

proof fn lemma_shr4(x: i32)
    ensures
        (x >> 4i32) as int == x as int / 16,
{
    assert(x == 16 * (x >> 4i32) + (x & 15i32) && 0 <= (x & 15i32) < 16) by (bit_vector);
    lemma_floor(x as int, 16, (x >> 4i32) as int, (x & 15i32) as int);
}

proof fn lemma_shr7(x: i32)
    ensures
        (x >> 7i32) as int == x as int / 128,
{
    assert(x == 128 * (x >> 7i32) + (x & 127i32) && 0 <= (x & 127i32) < 128) by (bit_vector);
    lemma_floor(x as int, 128, (x >> 7i32) as int, (x & 127i32) as int);
}

proof fn lemma_shr8(x: i32)
    ensures
        (x >> 8i32) as int == x as int / 256,
{
    assert(x == 256 * (x >> 8i32) + (x & 255i32) && 0 <= (x & 255i32) < 256) by (bit_vector);
    lemma_floor(x as int, 256, (x >> 8i32) as int, (x & 255i32) as int);
}

proof fn lemma_shr10(x: i32)
    ensures
        (x >> 10i32) as int == x as int / 1024,
{
    assert(x == 1024 * (x >> 10i32) + (x & 1023i32) && 0 <= (x & 1023i32) < 1024) by (bit_vector);
    lemma_floor(x as int, 1024, (x >> 10i32) as int, (x & 1023i32) as int);
}

proof fn lemma_shr11(x: i32)
    ensures
        (x >> 11i32) as int == x as int / 2048,
{
    assert(x == 2048 * (x >> 11i32) + (x & 2047i32) && 0 <= (x & 2047i32) < 2048) by (bit_vector);
    lemma_floor(x as int, 2048, (x >> 11i32) as int, (x & 2047i32) as int);
}

proof fn lemma_shr12(x: i32)
    ensures
        (x >> 12i32) as int == x as int / 4096,
{
    assert(x == 4096 * (x >> 12i32) + (x & 4095i32) && 0 <= (x & 4095i32) < 4096) by (bit_vector);
    lemma_floor(x as int, 4096, (x >> 12i32) as int, (x & 4095i32) as int);
}

proof fn lemma_shr14(x: i32)
    ensures
        (x >> 14i32) as int == x as int / 16384,
{
    assert(x == 16384 * (x >> 14i32) + (x & 16383i32) && 0 <= (x & 16383i32) < 16384)
        by (bit_vector);
    lemma_floor(x as int, 16384, (x >> 14i32) as int, (x & 16383i32) as int);
}

proof fn lemma_shr15(x: i32)
    ensures
        (x >> 15i32) as int == x as int / 32768,
{
    assert(x == 32768 * (x >> 15i32) + (x & 32767i32) && 0 <= (x & 32767i32) < 32768)
        by (bit_vector);
    lemma_floor(x as int, 32768, (x >> 15i32) as int, (x & 32767i32) as int);
}

proof fn lemma_mul_bound(a: int, b: int, ba: int, bb: int)
    by (nonlinear_arith)
    requires
        -ba <= a <= ba,
        -bb <= b <= bb,
    ensures
        -(ba * bb) <= a * b <= ba * bb,
{
}

proof fn lemma_square_nonneg(a: int)
    by (nonlinear_arith)
    ensures
        a * a >= 0,
{
}

// ---------------------------------------------------------------------------------------
// Temperature
// ---------------------------------------------------------------------------------------

/// First temperature term: `((raw/8 - 2*T1) * T2) / 2^11`.
pub open spec fn temp_var1(raw: int, c: Bme280Calibration) -> int {
    ((raw / 8 - 2 * c.dig_t1) * c.dig_t2) / 2048
}

/// Second temperature term: `(((raw/16 - T1)^2 / 2^12) * T3) / 2^14`.
pub open spec fn temp_var2(raw: int, c: Bme280Calibration) -> int {
    (((raw / 16 - c.dig_t1) * (raw / 16 - c.dig_t1)) / 4096 * c.dig_t3) / 16384
}

/// The fine temperature that the humidity compensation takes.
pub open spec fn spec_t_fine(raw: int, c: Bme280Calibration) -> int {
    temp_var1(raw, c) + temp_var2(raw, c)
}

/// The compensated temperature in hundredths of a degree Celsius.
pub open spec fn spec_temp_centi(t_fine: int) -> int {
    (t_fine * 5 + 128) / 256
}

/// The 32-bit computation of the temperature does not overflow.
pub open spec fn temperature_fits(raw: int, c: Bme280Calibration) -> bool {
    let d = raw / 16 - c.dig_t1;
    &&& fits_i32((raw / 8 - 2 * c.dig_t1) * c.dig_t2)
    &&& fits_i32(d * d)
    &&& fits_i32((d * d) / 4096 * c.dig_t3)
    &&& fits_i32(spec_t_fine(raw, c))
    &&& fits_i32(spec_t_fine(raw, c) * 5)
    &&& fits_i32(spec_t_fine(raw, c) * 5 + 128)
}

/// Bosch Sensortec 32-bit integer temperature compensation. Returns the temperature in
/// hundredths of a degree Celsius and the fine temperature.
pub fn compensate_temperature(raw_temp: i32, calib: &Bme280Calibration) -> (res: (i32, i32))
    requires
        temperature_fits(raw_temp as int, *calib),
    ensures
        res.1 == spec_t_fine(raw_temp as int, *calib),
        res.0 == spec_temp_centi(res.1 as int),
{
    let t1 = calib.dig_t1 as i32;
    let r3 = raw_temp >> 3i32;
    proof {
        lemma_shr3(raw_temp);
    }
    let p = (r3 - t1 * 2) * (calib.dig_t2 as i32);
    let var1 = p >> 11i32;
    proof {
        lemma_shr11(p);
    }
    let r4 = raw_temp >> 4i32;
    proof {
        lemma_shr4(raw_temp);
    }
    let d = r4 - t1;
    let dd = d * d;
    let dd12 = dd >> 12i32;
    proof {
        lemma_shr12(dd);
    }
    let q = dd12 * (calib.dig_t3 as i32);
    let var2 = q >> 14i32;
    proof {
        lemma_shr14(q);
    }
    let t_fine = var1 + var2;
    let x = t_fine * 5 + 128;
    let centi = x >> 8i32;
    proof {
        lemma_shr8(x);
    }
    (centi, t_fine)
}

/// Whether the temperature compensation can run on these inputs without overflow.
pub fn temperature_compensation_fits(raw_temp: i32, calib: &Bme280Calibration) -> (ok: bool)
    ensures
        ok == temperature_fits(raw_temp as int, *calib),
{
    let t1 = calib.dig_t1 as i64;
    let raw = raw_temp as i64;
    let r3 = raw_temp >> 3i32;
    let r4 = raw_temp >> 4i32;
    proof {
        lemma_shr3(raw_temp);
        lemma_shr4(raw_temp);
    }
    proof {
        lemma_mul_bound(r3 as i64 - t1 * 2, calib.dig_t2 as int, 0x2000_0000, 0x8000);
    }
    let p = (r3 as i64 - t1 * 2) * (calib.dig_t2 as i64);
    if p < i32::MIN as i64 || p > i32::MAX as i64 {
        return false;
    }
    let d = r4 as i64 - t1;
    proof {
        lemma_mul_bound(d as int, d as int, 0x2000_0000, 0x2000_0000);
        lemma_square_nonneg(d as int);
    }
    let dd = d * d;
    if dd > i32::MAX as i64 {
        return false;
    }
    let dd32 = dd as i32;
    let dd12 = dd32 >> 12i32;
    proof {
        lemma_shr12(dd32);
    }
    proof {
        lemma_mul_bound(dd12 as int, calib.dig_t3 as int, 0x8000_0000, 0x8000);
    }
    let q = dd12 as i64 * (calib.dig_t3 as i64);
    if q < i32::MIN as i64 || q > i32::MAX as i64 {
        return false;
    }
    let p32 = p as i32;
    let q32 = q as i32;
    let var1 = p32 >> 11i32;
    let var2 = q32 >> 14i32;
    proof {
        lemma_shr11(p32);
        lemma_shr14(q32);
    }
    let t_fine = var1 as i64 + var2 as i64;
    let x = t_fine * 5 + 128;
    t_fine >= i32::MIN as i64 && t_fine <= i32::MAX as i64 && t_fine * 5 >= i32::MIN as i64 && x
        <= i32::MAX as i64
}

// ---------------------------------------------------------------------------------------
// Humidity
// ---------------------------------------------------------------------------------------

proof fn lemma_shl14(x: i32)
    ensures
        (x << 14i32) as int == wrap_i32(x * 16384),
{
    assert(x << 14i32 == (x * 16384) as i32) by (bit_vector);
}

proof fn lemma_shl20(x: i32)
    ensures
        (x << 20i32) as int == wrap_i32(x * 1048576),
{
    assert(x << 20i32 == (x * 1048576) as i32) by (bit_vector);
}

/// The fine temperature offset by 76800.
pub open spec fn hum_v0(t_fine: int) -> int {
    t_fine - 76800
}

/// The raw-humidity term: `((raw << 14) - (H4 << 20) - H5 * v0 + 2^14) / 2^15`, with the
/// left shifts reduced to 32 bits.
pub open spec fn hum_offset(raw_hum: int, t_fine: int, c: Bme280Calibration) -> int {
    (wrap_i32(raw_hum * 16384) - wrap_i32(c.dig_h4 * 1048576) - c.dig_h5 * hum_v0(t_fine) + 16384)
        / 32768
}

/// The H6/H3 term before scaling: `((v0*H6/2^10) * (v0*H3/2^11 + 2^15)) / 2^10 + 2^21`.
pub open spec fn hum_curve(t_fine: int, c: Bme280Calibration) -> int {
    let v0 = hum_v0(t_fine);
    ((v0 * c.dig_h6) / 1024 * ((v0 * c.dig_h3) / 2048 + 32768)) / 1024 + 2097152
}

/// The scale term: `(curve * H2 + 2^13) / 2^14`.
pub open spec fn hum_scale(t_fine: int, c: Bme280Calibration) -> int {
    (hum_curve(t_fine, c) * c.dig_h2 + 8192) / 16384
}

/// The humidity value before the H1 correction.
pub open spec fn hum_v1(raw_hum: int, t_fine: int, c: Bme280Calibration) -> int {
    hum_offset(raw_hum, t_fine, c) * hum_scale(t_fine, c)
}

/// The humidity value after the H1 correction: `v1 - (((v1/2^15)^2 / 2^7) * H1) / 2^4`.
pub open spec fn hum_v2(raw_hum: int, t_fine: int, c: Bme280Calibration) -> int {
    let v1 = hum_v1(raw_hum, t_fine, c);
    v1 - ((((v1 / 32768) * (v1 / 32768)) / 128) * c.dig_h1) / 16
}

/// The compensated humidity in 1/1024 of a percent: the corrected value clamped to
/// 0..=419430400, divided by 2^12.
pub open spec fn spec_humidity_q10(raw_hum: int, t_fine: int, c: Bme280Calibration) -> int {
    let v2 = hum_v2(raw_hum, t_fine, c);
    let v3 = if v2 < 0 {
        0
    } else if v2 > 419430400 {
        419430400
    } else {
        v2
    };
    v3 / 4096
}

/// The 32-bit computation of the humidity does not overflow.
pub open spec fn humidity_fits(raw_hum: int, t_fine: int, c: Bme280Calibration) -> bool {
    let v0 = hum_v0(t_fine);
    let s = wrap_i32(raw_hum * 16384) - wrap_i32(c.dig_h4 * 1048576);
    let b1 = (v0 * c.dig_h6) / 1024;
    let b2 = (v0 * c.dig_h3) / 2048 + 32768;
    let v1 = hum_v1(raw_hum, t_fine, c);
    &&& fits_i32(v0)
    &&& fits_i32(s)
    &&& fits_i32(c.dig_h5 * v0)
    &&& fits_i32(s - c.dig_h5 * v0)
    &&& fits_i32(s - c.dig_h5 * v0 + 16384)
    &&& fits_i32(v0 * c.dig_h6)
    &&& fits_i32(v0 * c.dig_h3)
    &&& fits_i32(b2)
    &&& fits_i32(b1 * b2)
    &&& fits_i32(hum_curve(t_fine, c))
    &&& fits_i32(hum_curve(t_fine, c) * c.dig_h2)
    &&& fits_i32(hum_curve(t_fine, c) * c.dig_h2 + 8192)
    &&& fits_i32(v1)
    &&& fits_i32((v1 / 32768) * (v1 / 32768))
    &&& fits_i32((((v1 / 32768) * (v1 / 32768)) / 128) * c.dig_h1)
    &&& fits_i32(hum_v2(raw_hum, t_fine, c))
}

fn humidity_offset_term(raw_hum: i32, v0: i32, calib: &Bme280Calibration) -> (a: i32)
    requires
        fits_i32(wrap_i32(raw_hum * 16384) - wrap_i32(calib.dig_h4 * 1048576)),
        fits_i32(calib.dig_h5 * v0),
        fits_i32(wrap_i32(raw_hum * 16384) - wrap_i32(calib.dig_h4 * 1048576) - calib.dig_h5 * v0),
        fits_i32(wrap_i32(raw_hum * 16384) - wrap_i32(calib.dig_h4 * 1048576) - calib.dig_h5 * v0
            + 16384),
    ensures
        a == (wrap_i32(raw_hum * 16384) - wrap_i32(calib.dig_h4 * 1048576) - calib.dig_h5 * v0
            + 16384) / 32768,
{
    let s1 = raw_hum << 14i32;
    let h4 = calib.dig_h4 as i32;
    let s2 = h4 << 20i32;
    proof {
        lemma_shl14(raw_hum);
        lemma_shl20(h4);
    }
    let x = s1 - s2 - (calib.dig_h5 as i32) * v0 + 16384;
    proof {
        lemma_shr15(x);
    }
    x >> 15i32
}

fn humidity_scale_term(v0: i32, calib: &Bme280Calibration) -> (b: i32)
    requires
        fits_i32(v0 * calib.dig_h6),
        fits_i32(v0 * calib.dig_h3),
        fits_i32((v0 * calib.dig_h3) / 2048 + 32768),
        fits_i32((v0 * calib.dig_h6) / 1024 * ((v0 * calib.dig_h3) / 2048 + 32768)),
        fits_i32(((v0 * calib.dig_h6) / 1024 * ((v0 * calib.dig_h3) / 2048 + 32768)) / 1024 + 2097152),
        fits_i32((((v0 * calib.dig_h6) / 1024 * ((v0 * calib.dig_h3) / 2048 + 32768)) / 1024 + 2097152)
            * calib.dig_h2),
        fits_i32((((v0 * calib.dig_h6) / 1024 * ((v0 * calib.dig_h3) / 2048 + 32768)) / 1024 + 2097152)
            * calib.dig_h2 + 8192),
    ensures
        b == ((((v0 * calib.dig_h6) / 1024 * ((v0 * calib.dig_h3) / 2048 + 32768)) / 1024 + 2097152)
            * calib.dig_h2 + 8192) / 16384,
{
    let p6 = v0 * (calib.dig_h6 as i32);
    let b1 = p6 >> 10i32;
    let p3 = v0 * (calib.dig_h3 as i32);
    let q3 = p3 >> 11i32;
    proof {
        lemma_shr10(p6);
        lemma_shr11(p3);
    }
    let b2 = q3 + 32768;
    let m = b1 * b2;
    let m10 = m >> 10i32;
    proof {
        lemma_shr10(m);
    }
    let b3 = m10 + 2097152;
    let y = b3 * (calib.dig_h2 as i32) + 8192;
    proof {
        lemma_shr14(y);
    }
    y >> 14i32
}

/// Bosch Sensortec 32-bit integer humidity compensation. Returns the relative humidity
/// in 1/1024 of a percent (0 to 102400).
pub fn compensate_humidity(raw_hum: i32, t_fine: i32, calib: &Bme280Calibration) -> (h: u32)
    requires
        humidity_fits(raw_hum as int, t_fine as int, *calib),
    ensures
        h == spec_humidity_q10(raw_hum as int, t_fine as int, *calib),
        h <= 102400,
{
    let v0 = t_fine - 76800;
    let a = humidity_offset_term(raw_hum, v0, calib);
    let b = humidity_scale_term(v0, calib);
    let v1 = a * b;
    let c = v1 >> 15i32;
    proof {
        lemma_shr15(v1);
    }
    let cc = c * c;
    let cc7 = cc >> 7i32;
    proof {
        lemma_shr7(cc);
    }
    let e = cc7 * (calib.dig_h1 as i32);
    let e4 = e >> 4i32;
    proof {
        lemma_shr4(e);
    }
    let v2 = v1 - e4;
    let v3 = if v2 < 0 {
        0
    } else if v2 > 419430400 {
        419430400
    } else {
        v2
    };
    let h = v3 >> 12i32;
    proof {
        lemma_shr12(v3);
    }
    h as u32
}

/// Whether the humidity compensation can run on these inputs without overflow.
pub fn humidity_compensation_fits(raw_hum: i32, t_fine: i32, calib: &Bme280Calibration) -> (ok: bool)
    ensures
        ok == humidity_fits(raw_hum as int, t_fine as int, *calib),
{
    let lo = i32::MIN as i64;
    let hi = i32::MAX as i64;
    let v0 = t_fine as i64 - 76800;
    if v0 < lo {
        return false;
    }
    let h4 = calib.dig_h4 as i32;
    let s1 = raw_hum << 14i32;
    let s2 = h4 << 20i32;
    proof {
        lemma_shl14(raw_hum);
        lemma_shl20(h4);
    }
    let s = s1 as i64 - s2 as i64;
    if s < lo || s > hi {
        return false;
    }
    proof {
        lemma_mul_bound(calib.dig_h5 as int, v0 as int, 0x8000, 0x8000_0000);
    }
    let m = (calib.dig_h5 as i64) * v0;
    if m < lo || m > hi {
        return false;
    }
    let t = s - m;
    if t < lo || t > hi {
        return false;
    }
    let t2 = t + 16384;
    if t2 > hi {
        return false;
    }
    proof {
        lemma_mul_bound(v0 as int, calib.dig_h6 as int, 0x8000_0000, 0x80);
        lemma_mul_bound(v0 as int, calib.dig_h3 as int, 0x8000_0000, 0x100);
    }
    let p6 = v0 * (calib.dig_h6 as i64);
    if p6 < lo || p6 > hi {
        return false;
    }
    let p3 = v0 * (calib.dig_h3 as i64);
    if p3 < lo || p3 > hi {
        return false;
    }
    let p6_32 = p6 as i32;
    let p3_32 = p3 as i32;
    let b1 = p6_32 >> 10i32;
    let q3 = p3_32 >> 11i32;
    proof {
        lemma_shr10(p6_32);
        lemma_shr11(p3_32);
    }
    let b2 = q3 as i64 + 32768;
    if b2 > hi {
        return false;
    }
    proof {
        lemma_mul_bound(b1 as int, b2 as int, 0x8000_0000, 0x8000_0000);
    }
    let m2 = b1 as i64 * b2;
    if m2 < lo || m2 > hi {
        return false;
    }
    let m2_32 = m2 as i32;
    let m10 = m2_32 >> 10i32;
    proof {
        lemma_shr10(m2_32);
    }
    let curve = m10 as i64 + 2097152;
    if curve > hi {
        return false;
    }
    proof {
        lemma_mul_bound(curve as int, calib.dig_h2 as int, 0x8000_0000, 0x8000);
    }
    let cz = curve * (calib.dig_h2 as i64);
    if cz < lo || cz > hi {
        return false;
    }
    let cz2 = cz + 8192;
    if cz2 > hi {
        return false;
    }
    let t2_32 = t2 as i32;
    let cz2_32 = cz2 as i32;
    let a = t2_32 >> 15i32;
    let b = cz2_32 >> 14i32;
    proof {
        lemma_shr15(t2_32);
        lemma_shr14(cz2_32);
        lemma_mul_bound(a as int, b as int, 0x8000_0000, 0x8000_0000);
    }
    let v1 = a as i64 * b as i64;
    if v1 < lo || v1 > hi {
        return false;
    }
    let v1_32 = v1 as i32;
    let c = v1_32 >> 15i32;
    proof {
        lemma_shr15(v1_32);
        lemma_mul_bound(c as int, c as int, 0x8000_0000, 0x8000_0000);
        lemma_square_nonneg(c as int);
    }
    let cc = c as i64 * c as i64;
    if cc > hi {
        return false;
    }
    let cc_32 = cc as i32;
    let cc7 = cc_32 >> 7i32;
    proof {
        lemma_shr7(cc_32);
        lemma_mul_bound(cc7 as int, calib.dig_h1 as int, 0x8000_0000, 0x100);
    }
    let e = cc7 as i64 * (calib.dig_h1 as i64);
    if e < lo || e > hi {
        return false;
    }
    let e_32 = e as i32;
    let e4 = e_32 >> 4i32;
    proof {
        lemma_shr4(e_32);
    }
    let v2 = v1 - e4 as i64;
    v2 >= lo && v2 <= hi
}

// ---------------------------------------------------------------------------------------
// Registers
// ---------------------------------------------------------------------------------------

/// The calibration read from registers 0x88..0x8D (`t`), 0xA1 (`h1`) and 0xE1..0xE7 (`h`):
/// little-endian words, and H4/H5 packed as signed 12-bit values sharing register 0xE5,
/// whose high parts (0xE4 for H4, 0xE6 for H5) carry the sign.
pub open spec fn spec_calibration(t: Seq<u8>, h1: u8, h: Seq<u8>) -> Bme280Calibration {
    Bme280Calibration {
        dig_t1: (t[0] + 256 * t[1]) as u16,
        dig_t2: (t[2] + 256 * t[3]) as i16,
        dig_t3: (t[4] + 256 * t[5]) as i16,
        dig_h1: h1,
        dig_h2: (h[0] + 256 * h[1]) as i16,
        dig_h3: h[2],
        dig_h4: (16 * (h[3] as i8) + h[4] % 16) as i16,
        dig_h5: (16 * (h[5] as i8) + h[4] / 16) as i16,
        dig_h6: h[6] as i8,
    }
}

fn le_word(lo: u8, hi: u8) -> (w: u16)
    ensures
        w == lo + 256 * hi,
{
    let w = (lo as u16) | ((hi as u16) << 8u16);
    assert((lo as u16) | ((hi as u16) << 8u16) == lo + 256 * hi) by (bit_vector);
    w
}

/// Decodes the calibration registers.
pub fn calibration_from_registers(t: &[u8; 6], h1: u8, h: &[u8; 7]) -> (c: Bme280Calibration)
    ensures
        c == spec_calibration(t@, h1, h@),
{
    let h3 = h[3];
    let h4 = h[4];
    let h5 = h[5];
    let dig_h4 = (((h3 as i8) as i16) << 4i16) | ((h4 as i16) & 0x0F);
    let dig_h5 = (((h5 as i8) as i16) << 4i16) | (((h4 as i16) >> 4i16) & 0x0F);
    assert((((h3 as i8) as i16) << 4i16) | ((h4 as i16) & 0x0F) == 16 * (h3 as i8) + h4 % 16)
        by (bit_vector);
    assert((((h5 as i8) as i16) << 4i16) | (((h4 as i16) >> 4i16) & 0x0F) == 16 * (h5 as i8) + h4
        / 16) by (bit_vector);
    Bme280Calibration {
        dig_t1: le_word(t[0], t[1]),
        dig_t2: le_word(t[2], t[3]) as i16,
        dig_t3: le_word(t[4], t[5]) as i16,
        dig_h1: h1,
        dig_h2: le_word(h[0], h[1]) as i16,
        dig_h3: h[2],
        dig_h4,
        dig_h5,
        dig_h6: h[6] as i8,
    }
}

/// The raw 20-bit temperature of a burst read of registers 0xFA..0xFE.
pub open spec fn spec_raw_temp(d: Seq<u8>) -> int {
    d[0] * 4096 + d[1] * 16 + d[2] / 16
}

/// The raw 16-bit humidity of a burst read of registers 0xFA..0xFE.
pub open spec fn spec_raw_hum(d: Seq<u8>) -> int {
    d[3] * 256 + d[4]
}

/// Decodes the raw temperature and humidity from a burst read of registers 0xFA..0xFE.
pub fn raw_readings(data: &[u8; 5]) -> (r: (i32, i32))
    ensures
        r.0 == spec_raw_temp(data@),
        r.1 == spec_raw_hum(data@),
{
    let d0 = data[0] as i32;
    let d1 = data[1] as i32;
    let d2 = data[2] as i32;
    let d3 = data[3] as i32;
    let d4 = data[4] as i32;
    let raw_temp = (d0 << 12i32) | (d1 << 4i32) | ((d2 >> 4i32) & 0x0F);
    let raw_hum = (d3 << 8i32) | d4;
    assert(0 <= d0 < 256 && 0 <= d1 < 256 && 0 <= d2 < 256 ==> (d0 << 12i32) | (d1 << 4i32) | ((
    d2 >> 4i32) & 0x0F) == d0 * 4096 + d1 * 16 + d2 / 16) by (bit_vector);
    assert(0 <= d3 < 256 && 0 <= d4 < 256 ==> (d3 << 8i32) | d4 == d3 * 256 + d4) by (bit_vector);
    (raw_temp, raw_hum)
}

/// A reading is physical when the temperature lies in -20.00..=85.00 degrees Celsius and
/// the humidity in 0..=100 percent.
pub open spec fn reading_in_range(centi: int, hum_q10: int) -> bool {
    -2000 <= centi <= 8500 && 0 <= hum_q10 <= 102400
}

/// The outcome of a measurement: the compensated temperature (hundredths of a degree) and
/// humidity (1/1024 percent), or an error when the computation would overflow or the
/// reading is not physical.
pub open spec fn spec_measurement(d: Seq<u8>, c: Bme280Calibration) -> Option<(int, int)> {
    let rt = spec_raw_temp(d);
    let rh = spec_raw_hum(d);
    if !measurement_fits(d, c) {
        None
    } else {
        let centi = spec_temp_centi(spec_t_fine(rt, c));
        let hum = spec_humidity_q10(rh, spec_t_fine(rt, c), c);
        if reading_in_range(centi, hum) {
            Some((centi, hum))
        } else {
            None
        }
    }
}

/// Whether the compensation of a burst read can be computed without overflow.
pub open spec fn measurement_fits(d: Seq<u8>, c: Bme280Calibration) -> bool {
    let rt = spec_raw_temp(d);
    temperature_fits(rt, c) && humidity_fits(spec_raw_hum(d), spec_t_fine(rt, c), c)
}

/// Compensates a burst read of registers 0xFA..0xFE with the given calibration.
pub fn read_measurement(data: &[u8; 5], calib: &Bme280Calibration) -> (r: Result<(i32, u32), String>)
    ensures
        spec_measurement(data@, *calib) is Some <==> r is Ok,
        r matches Ok(v) ==> spec_measurement(data@, *calib) == Some((v.0 as int, v.1 as int)),
        r matches Err(e) ==> e@ == (if measurement_fits(data@, *calib) {
            "BME280 reading out of physical range"@
        } else {
            "BME280 compensation overflow"@
        }),
{
    let (raw_temp, raw_hum) = raw_readings(data);
    if !temperature_compensation_fits(raw_temp, calib) {
        return Err(String::from_str("BME280 compensation overflow"));
    }
    let (centi, t_fine) = compensate_temperature(raw_temp, calib);
    if !humidity_compensation_fits(raw_hum, t_fine, calib) {
        return Err(String::from_str("BME280 compensation overflow"));
    }
    let hum = compensate_humidity(raw_hum, t_fine, calib);
    if centi < -2000 || centi > 8500 || hum > 102400 {
        return Err(String::from_str("BME280 reading out of physical range"));
    }
    Ok((centi, hum))
}

/// Picks the sensor address from the chip-id reads at the primary and the secondary
/// address (`None` where the read failed): the first address that answered with the
/// BME280 chip id.
pub fn select_address(id_primary: Option<u8>, id_secondary: Option<u8>) -> (addr: Option<u8>)
    ensures
        addr == (if id_primary == Some(BME280_CHIP_ID) {
            Some(BME280_I2C_ADDR_PRIMARY)
        } else if id_secondary == Some(BME280_CHIP_ID) {
            Some(BME280_I2C_ADDR_SECONDARY)
        } else {
            None::<u8>
        }),
{
    if let Some(id) = id_primary {
        if id == BME280_CHIP_ID {
            return Some(BME280_I2C_ADDR_PRIMARY);
        }
    }
    if let Some(id) = id_secondary {
        if id == BME280_CHIP_ID {
            return Some(BME280_I2C_ADDR_SECONDARY);
        }
    }
    None
}

// ---------------------------------------------------------------------------------------
// Laws
// ---------------------------------------------------------------------------------------

/// The temperature in hundredths of a degree is `5 * t_fine / 256` rounded to the nearest
/// integer (halves rounded up): it lies within half a unit of that quotient.
pub proof fn law_temperature_rounds_to_nearest(t_fine: int)
    ensures
        5 * t_fine - 128 < 256 * spec_temp_centi(t_fine) <= 5 * t_fine + 128,
{
    vstd::arithmetic::div_mod::lemma_fundamental_div_mod(t_fine * 5 + 128, 256);
}

/// A burst read decodes as the datasheet lays it out: the raw temperature is the 20-bit
/// value whose top byte is register 0xFA, middle byte 0xFB and low nibble the high nibble
/// of 0xFC; the raw humidity is the 16-bit big-endian word of 0xFD and 0xFE.
pub proof fn law_raw_layout(d: Seq<u8>)
    requires
        d.len() == 5,
    ensures
        0 <= spec_raw_temp(d) < 1048576,
        spec_raw_temp(d) / 4096 == d[0],
        (spec_raw_temp(d) / 16) % 256 == d[1],
        spec_raw_temp(d) % 16 == d[2] / 16,
        0 <= spec_raw_hum(d) < 65536,
        spec_raw_hum(d) / 256 == d[3],
        spec_raw_hum(d) % 256 == d[4],
{
    let t = spec_raw_temp(d);
    assert(t == d[0] * 4096 + d[1] * 16 + d[2] / 16);
    vstd::arithmetic::div_mod::lemma_fundamental_div_mod_converse(t, 4096, d[0] as int, d[1] * 16 + d[2] / 16);
    vstd::arithmetic::div_mod::lemma_fundamental_div_mod_converse(t, 16, d[0] * 256 + d[1], (d[2] / 16) as int);
    vstd::arithmetic::div_mod::lemma_fundamental_div_mod_converse(d[0] * 256 + d[1], 256, d[0] as int, d[1] as int);
    vstd::arithmetic::div_mod::lemma_fundamental_div_mod_converse(spec_raw_hum(d), 256, d[3] as int, d[4] as int);
}

/// The calibration words decode as the datasheet lays them out: T1, T2, T3 and H2 are
/// little-endian words (T1 unsigned, the others signed), H4 has register 0xE4 as its
/// signed high part and the low nibble of 0xE5 as its low four bits, and H5 has register
/// 0xE6 as its signed high part and the high nibble of 0xE5 as its low four bits.
pub proof fn law_calibration_layout(t: Seq<u8>, h1: u8, h: Seq<u8>)
    requires
        t.len() == 6,
        h.len() == 7,
    ensures
        ({
            let c = spec_calibration(t, h1, h);
            &&& c.dig_t1 == t[0] + 256 * t[1]
            &&& c.dig_t2 as u16 == t[2] + 256 * t[3]
            &&& c.dig_t3 as u16 == t[4] + 256 * t[5]
            &&& c.dig_h1 == h1
            &&& c.dig_h2 as u16 == h[0] + 256 * h[1]
            &&& c.dig_h3 == h[2]
            &&& c.dig_h4 as int % 16 == h[4] % 16
            &&& c.dig_h4 as int / 16 == (if h[3] < 128 { h[3] as int } else { h[3] - 256 })
            &&& c.dig_h5 as int % 16 == h[4] / 16
            &&& c.dig_h5 as int / 16 == (if h[5] < 128 { h[5] as int } else { h[5] - 256 })
            &&& c.dig_h6 as u8 == h[6]
        }),
{
    let c = spec_calibration(t, h1, h);
    let w2 = (t[2] + 256 * t[3]) as u16;
    let w3 = (t[4] + 256 * t[5]) as u16;
    let wh = (h[0] + 256 * h[1]) as u16;
    let b6 = h[6];
    assert((w2 as i16) as u16 == w2 && (w3 as i16) as u16 == w3 && (wh as i16) as u16 == wh)
        by (bit_vector);
    assert((b6 as i8) as u8 == b6) by (bit_vector);
    assert(c.dig_t2 == w2 as i16);
    assert(c.dig_t3 == w3 as i16);
    assert(c.dig_h2 == wh as i16);
    let b3 = h[3];
    let b5 = h[5];
    assert((b3 as i8) as int == (if b3 < 128 { b3 as int } else { b3 - 256 })) by (bit_vector);
    assert((b5 as i8) as int == (if b5 < 128 { b5 as int } else { b5 - 256 })) by (bit_vector);
    let s4 = 16 * (h[3] as i8) + h[4] % 16;
    let s5 = 16 * (h[5] as i8) + h[4] / 16;
    assert(-2048 <= s4 < 2048 && -2048 <= s5 < 2048);
    vstd::arithmetic::div_mod::lemma_fundamental_div_mod_converse(s4, 16, (h[3] as i8) as int, (h[4] % 16) as int);
    vstd::arithmetic::div_mod::lemma_fundamental_div_mod_converse(s5, 16, (h[5] as i8) as int, (h[4] / 16) as int);
}

/// A measurement is given exactly when its computation fits in 32 bits and the result is
/// physical: -20.00 to 85.00 degrees and 0 to 100 percent (102400 in 1/1024 percent).
pub proof fn law_measurement_range(d: Seq<u8>, c: Bme280Calibration)
    ensures
        spec_measurement(d, c) matches Some(r) ==> -2000 <= r.0 <= 8500 && 0 <= r.1 <= 102400,
        spec_measurement(d, c) is None <==> !measurement_fits(d, c) || !({
            let rt = spec_raw_temp(d);
            let centi = spec_temp_centi(spec_t_fine(rt, c));
            let hum = spec_humidity_q10(spec_raw_hum(d), spec_t_fine(rt, c), c);
            -2000 <= centi <= 8500 && 0 <= hum <= 102400
        }),
{
}

/// The sensor identifies itself with chip id 0x60 and answers at address 0x76, or at 0x77
/// when its address pin is pulled high.
pub proof fn law_sensor_identity()
    ensures
        BME280_CHIP_ID == 0x60,
        BME280_I2C_ADDR_PRIMARY == 0x76,
        BME280_I2C_ADDR_SECONDARY == 0x77,
{
}

} // verus!
