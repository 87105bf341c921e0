use nkcore::{out_var, out_var_or_err};

#[test]
fn default_builds_default_value() {
    let n: u32 = nkcore::base::default();
    assert_eq!(n, 0);
    let s: String = nkcore::base::default();
    assert_eq!(s, "");
    let v: Vec<u8> = nkcore::base::default();
    assert!(v.is_empty());
}

#[test]
fn out_var_returns_initialized_value() {
    let n: u32 = out_var(|out: &mut u32| *out += 7);
    assert_eq!(n, 7);
    let v: Vec<u8> = out_var(|out: &mut Vec<u8>| out.push(3));
    assert_eq!(v, vec![3]);
}

#[test]
fn out_var_or_err_returns_value_or_error() {
    let ok: Result<u32, String> = out_var_or_err(|out: &mut u32| {
        *out = 5;
        Ok(())
    });
    assert_eq!(ok, Ok(5));
    let err: Result<u32, String> = out_var_or_err(|out: &mut u32| {
        *out = 5;
        Err("failed".to_string())
    });
    assert_eq!(err, Err("failed".to_string()));
}
