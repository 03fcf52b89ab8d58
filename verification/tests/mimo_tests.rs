use ns_core::cpx::Cpx;
use ns_core::mimo::{ChannelGain, channel_gain_los, friis_path_loss, norm_fro2_for_channel_gain, steering_vector};
use ns_core::scalar::Real;

fn complex_entry(h: &ChannelGain, i: usize, j: usize) -> (f64, f64) {
    let e = h.entry(i, j);
    (e.re.repr.parse().unwrap(), e.im.repr.parse().unwrap())
}

#[test]
fn test_channel_gain() {
    // downlink: the transmit angle is always the 90-degree boresight
    let alpha = Cpx::new(Real::from_repr("10000000000"), Real::from_repr("10000000000"));
    let (n, m) = (1usize, 2usize);
    let h = channel_gain_los(&alpha, m, n, &Real::from_repr("90"), &Real::from_repr("90"));
    assert_eq!(h.shape(), (n, m));
    assert_eq!(h.len(), 2);
    let cmp = [
        (10000000000.0f64, 10000000000.0f64),
        (0.0000012246467991473532, -0.0000012246467991473532),
    ];
    for x in 0..h.len() {
        assert_eq!(complex_entry(&h, 0, x), cmp[x]);
    }

    let alpha = Cpx::new(Real::from_repr("1"), Real::from_repr("1"));
    let (n, m) = (2usize, 4usize);
    let h = channel_gain_los(&alpha, m, n, &Real::from_repr("90"), &Real::from_repr("30"));
    assert_eq!(h.shape(), (n, m));
    let row0 = [
        (1.0f64, 1.0f64),
        (0.00000000000000012246467991473532, -0.00000000000000012246467991473532),
        (-0.00000000000000024492935982947064, 0.00000000000000024492935982947064),
        (0.00000000000000036739403974420594, -0.00000000000000036739403974420594),
    ];
    let row1 = [
        (-1.0f64, 1.0f64),
        (0.00000000000000012246467991473532, 0.00000000000000012246467991473532),
        (-0.00000000000000024492935982947064, -0.00000000000000024492935982947064),
        (0.00000000000000036739403974420594, 0.00000000000000036739403974420594),
    ];
    for x in 0..m {
        assert_eq!(complex_entry(&h, 0, x), row0[x]);
        assert_eq!(complex_entry(&h, 1, x), row1[x]);
    }
}

#[test]
fn test_norm2_channel_gain() {
    let values = [
        (1.0f64, 2.0f64),
        (1.0, 2.0),
        (0.0, 1.0),
        (2.0, 1.0),
        (2.0, 1.0),
        (1.0, 1.0),
    ];
    let mut data: Vec<Cpx> = Vec::new();
    for (re, im) in values {
        data.push(Cpx::new(
            Real::from_repr(&format!("{:?}", re)),
            Real::from_repr(&format!("{:?}", im)),
        ));
    }
    let h = ChannelGain::from_entries(2, 3, data);
    let norm_fro: f64 = norm_fro2_for_channel_gain(h).repr.parse().unwrap();
    assert_eq!(3.3702352250803287, norm_fro);
}

#[test]
fn test_steering_vector() {
    let sv1 = steering_vector(&Real::from_repr("90"), 4);
    let expect1 = [
        (1.0f64, 0.0f64),
        (0.0, 0.00000000000000012246467991473532),
        (0.0, -0.00000000000000024492935982947064),
        (0.0, 0.00000000000000036739403974420594),
    ];
    assert_eq!(sv1.len(), 4);
    for k in 0..4 {
        let re: f64 = sv1[k].re.repr.parse().unwrap();
        let im: f64 = sv1[k].im.repr.parse().unwrap();
        assert_eq!((re, im), expect1[k]);
    }

    let sv2 = steering_vector(&Real::from_repr("30"), 4);
    let expect2 = [
        (1.0f64, 0.0f64),
        (0.0, 1.0),
        (0.0, 0.000000000000000566553889764798),
        (0.0, -1.0),
    ];
    assert_eq!(sv2.len(), 4);
    for k in 0..4 {
        let re: f64 = sv2[k].re.repr.parse().unwrap();
        let im: f64 = sv2[k].im.repr.parse().unwrap();
        assert_eq!((re, im), expect2[k]);
    }
}

#[test]
fn test_friis_pl() {
    // at 26 GHz
    let hz = 26e9f64;
    let c = 3e8f64;
    let wavelength = c / hz;
    let wl = Real::from_repr(&format!("{:?}", wavelength));
    let one = Real::from_repr("1");
    let hundred = Real::from_repr("100");
    let r: f64 = friis_path_loss(&one, &one, &hundred, &wl).repr.parse().unwrap();
    assert_eq!(0.00000000008430941686215238, r);

    let gain = libm::pow(wavelength, -2.0) * 10.0;
    let g = Real::from_repr(&format!("{:?}", gain));
    let r2: f64 = friis_path_loss(&g, &g, &hundred, &wl).repr.parse().unwrap();
    assert_eq!(0.4756466676543079, r2);
}
