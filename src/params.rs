use vstd::prelude::*;

verus! {

/// Wire type of a parameter value.
#[derive(Clone, Copy, Debug, PartialEq, Eq)]
pub enum ParamType {
    U8,
    U16,
    U32,
    I16,
    F32,
    Str,
}

/// Who may touch a parameter.
#[derive(Clone, Copy, Debug, PartialEq, Eq)]
pub enum ParamAccess {
    R,
    W,
    RW,
}

/// One entry of the parameter table.
#[derive(Clone, Copy, Debug)]
pub struct ParamDef {
    pub index: u16,
    pub name: &'static str,
    pub desc: &'static str,
    pub param_type: ParamType,
    pub access: ParamAccess,
    pub default_str: &'static str,
}

/// Number of writable parameters.
pub const WRITABLE_COUNT: usize = 22;

/// Number of read-only parameters.
pub const READONLY_COUNT: usize = 11;

/// What the table says of one parameter, with its strings as character sequences.
pub ghost struct ParamLayout {
    pub index: u16,
    pub name: Seq<char>,
    pub desc: Seq<char>,
    pub param_type: ParamType,
    pub default_str: Seq<char>,
}

/// The writable parameters, in table order.
pub open spec fn writable_layout() -> Seq<ParamLayout> {
    seq![
        ParamLayout { index: 0x7005u16, name: "run_mode"@, desc: "Run mode (0=MIT,1=PP,2=Speed,3=Current,5=CSP)"@, param_type: ParamType::U8, default_str: "0"@ },
        ParamLayout { index: 0x7006u16, name: "iq_ref"@, desc: "Current mode Iq command (A)"@, param_type: ParamType::F32, default_str: "0"@ },
        ParamLayout { index: 0x700Au16, name: "spd_ref"@, desc: "Speed command (rad/s)"@, param_type: ParamType::F32, default_str: "0"@ },
        ParamLayout { index: 0x700Bu16, name: "limit_torque"@, desc: "Torque limit (N.m)"@, param_type: ParamType::F32, default_str: "14"@ },
        ParamLayout { index: 0x7010u16, name: "cur_kp"@, desc: "Current loop Kp"@, param_type: ParamType::F32, default_str: "0.125"@ },
        ParamLayout { index: 0x7011u16, name: "cur_ki"@, desc: "Current loop Ki"@, param_type: ParamType::F32, default_str: "0.0158"@ },
        ParamLayout { index: 0x7014u16, name: "cur_filt_gain"@, desc: "Current filter coefficient (0~1)"@, param_type: ParamType::F32, default_str: "0.1"@ },
        ParamLayout { index: 0x7016u16, name: "loc_ref"@, desc: "Position command (rad)"@, param_type: ParamType::F32, default_str: "0"@ },
        ParamLayout { index: 0x7017u16, name: "limit_spd"@, desc: "CSP speed limit (rad/s)"@, param_type: ParamType::F32, default_str: "33"@ },
        ParamLayout { index: 0x7018u16, name: "limit_cur"@, desc: "Current limit (A)"@, param_type: ParamType::F32, default_str: "16"@ },
        ParamLayout { index: 0x701Eu16, name: "loc_kp"@, desc: "Position loop Kp"@, param_type: ParamType::F32, default_str: "30"@ },
        ParamLayout { index: 0x701Fu16, name: "spd_kp"@, desc: "Speed loop Kp"@, param_type: ParamType::F32, default_str: "5"@ },
        ParamLayout { index: 0x7020u16, name: "spd_ki"@, desc: "Speed loop Ki"@, param_type: ParamType::F32, default_str: "0.02"@ },
        ParamLayout { index: 0x7021u16, name: "spd_filt_gain"@, desc: "Speed filter coefficient (0~1)"@, param_type: ParamType::F32, default_str: "0.05"@ },
        ParamLayout { index: 0x7022u16, name: "acc_rad"@, desc: "Speed mode acceleration (rad/s^2)"@, param_type: ParamType::F32, default_str: "100"@ },
        ParamLayout { index: 0x7024u16, name: "vel_max"@, desc: "PP mode velocity (rad/s)"@, param_type: ParamType::F32, default_str: "10"@ },
        ParamLayout { index: 0x7025u16, name: "acc_set"@, desc: "PP mode acceleration (rad/s^2)"@, param_type: ParamType::F32, default_str: "10"@ },
        ParamLayout { index: 0x7026u16, name: "EPScan_time"@, desc: "Report interval (1=10ms, +1 adds 5ms)"@, param_type: ParamType::U16, default_str: "1"@ },
        ParamLayout { index: 0x7028u16, name: "canTimeout"@, desc: "CAN timeout (20000=1s, 0=disabled)"@, param_type: ParamType::U32, default_str: "0"@ },
        ParamLayout { index: 0x7029u16, name: "zero_sta"@, desc: "Zero mode (0=0~2pi, 1=-pi~pi)"@, param_type: ParamType::U8, default_str: "0"@ },
        ParamLayout { index: 0x702Au16, name: "damper"@, desc: "Damper switch (0=on, 1=off)"@, param_type: ParamType::U8, default_str: "0"@ },
        ParamLayout { index: 0x702Bu16, name: "add_offset"@, desc: "Zero offset (rad)"@, param_type: ParamType::F32, default_str: "0"@ },
    ]
}

/// The read-only parameters, in table order.
pub open spec fn readonly_layout() -> Seq<ParamLayout> {
    seq![
        ParamLayout { index: 0x3005u16, name: "mcuTemp"@, desc: "MCU temperature (*10)"@, param_type: ParamType::I16, default_str: ""@ },
        ParamLayout { index: 0x3006u16, name: "motorTemp"@, desc: "Motor NTC temperature (*10)"@, param_type: ParamType::I16, default_str: ""@ },
        ParamLayout { index: 0x3007u16, name: "vBus_mv"@, desc: "Bus voltage (mV)"@, param_type: ParamType::U16, default_str: ""@ },
        ParamLayout { index: 0x300Cu16, name: "VBUS"@, desc: "Bus voltage (V)"@, param_type: ParamType::F32, default_str: ""@ },
        ParamLayout { index: 0x300Eu16, name: "cmdIq"@, desc: "Iq command (A)"@, param_type: ParamType::F32, default_str: ""@ },
        ParamLayout { index: 0x3015u16, name: "modPos"@, desc: "Single-turn angle (rad)"@, param_type: ParamType::F32, default_str: ""@ },
        ParamLayout { index: 0x3016u16, name: "mechPos"@, desc: "Multi-turn position (rad)"@, param_type: ParamType::F32, default_str: ""@ },
        ParamLayout { index: 0x3017u16, name: "mechVel"@, desc: "Load-side velocity (rad/s)"@, param_type: ParamType::F32, default_str: ""@ },
        ParamLayout { index: 0x301Eu16, name: "iqf"@, desc: "Filtered Iq (A)"@, param_type: ParamType::F32, default_str: ""@ },
        ParamLayout { index: 0x3022u16, name: "faultSta"@, desc: "Fault status word"@, param_type: ParamType::U32, default_str: ""@ },
        ParamLayout { index: 0x302Cu16, name: "torque_fdb"@, desc: "Torque feedback (N.m)"@, param_type: ParamType::F32, default_str: ""@ },
    ]
}

/// `table` holds the entries of `layout`, in order, all with access `access`.
pub open spec fn follows_layout(table: Seq<ParamDef>, layout: Seq<ParamLayout>, access: ParamAccess) -> bool {
    &&& table.len() == layout.len()
    &&& forall|i: int|
        0 <= i < table.len() ==> {
            &&& (#[trigger] table[i]).index == layout[i].index
            &&& table[i].name@ == layout[i].name
            &&& table[i].desc@ == layout[i].desc
            &&& table[i].param_type == layout[i].param_type
            &&& table[i].default_str@ == layout[i].default_str
            &&& table[i].access == access
        }
}

/// Addresses strictly increase along `table`, so no two entries share one.
pub open spec fn strictly_ordered(table: Seq<ParamDef>) -> bool {
    forall|i: int, j: int| 0 <= i < j < table.len() ==> table[i].index < table[j].index
}

fn def(
    index: u16,
    name: &'static str,
    desc: &'static str,
    param_type: ParamType,
    access: ParamAccess,
    default_str: &'static str,
) -> (r: ParamDef)
    ensures
        r.index == index,
        r.name@ == name@,
        r.desc@ == desc@,
        r.param_type == param_type,
        r.access == access,
        r.default_str@ == default_str@,
{
    ParamDef { index, name, desc, param_type, access, default_str }
}

/// The writable parameters, read and written with the parameter commands; defaults as
/// shipped.
pub fn writable_params() -> (r: Vec<ParamDef>)
    ensures
        follows_layout(r@, writable_layout(), ParamAccess::RW),
        strictly_ordered(r@),
        forall|i: int| 0 <= i < r@.len() ==> 0x7000 <= (#[trigger] r@[i]).index < 0x7100,
{
    let rw = ParamAccess::RW;
    let v = vec![
        def(0x7005, "run_mode", "Run mode (0=MIT,1=PP,2=Speed,3=Current,5=CSP)", ParamType::U8, rw, "0"),
        def(0x7006, "iq_ref", "Current mode Iq command (A)", ParamType::F32, rw, "0"),
        def(0x700A, "spd_ref", "Speed command (rad/s)", ParamType::F32, rw, "0"),
        def(0x700B, "limit_torque", "Torque limit (N.m)", ParamType::F32, rw, "14"),
        def(0x7010, "cur_kp", "Current loop Kp", ParamType::F32, rw, "0.125"),
        def(0x7011, "cur_ki", "Current loop Ki", ParamType::F32, rw, "0.0158"),
        def(0x7014, "cur_filt_gain", "Current filter coefficient (0~1)", ParamType::F32, rw, "0.1"),
        def(0x7016, "loc_ref", "Position command (rad)", ParamType::F32, rw, "0"),
        def(0x7017, "limit_spd", "CSP speed limit (rad/s)", ParamType::F32, rw, "33"),
        def(0x7018, "limit_cur", "Current limit (A)", ParamType::F32, rw, "16"),
        def(0x701E, "loc_kp", "Position loop Kp", ParamType::F32, rw, "30"),
        def(0x701F, "spd_kp", "Speed loop Kp", ParamType::F32, rw, "5"),
        def(0x7020, "spd_ki", "Speed loop Ki", ParamType::F32, rw, "0.02"),
        def(0x7021, "spd_filt_gain", "Speed filter coefficient (0~1)", ParamType::F32, rw, "0.05"),
        def(0x7022, "acc_rad", "Speed mode acceleration (rad/s^2)", ParamType::F32, rw, "100"),
        def(0x7024, "vel_max", "PP mode velocity (rad/s)", ParamType::F32, rw, "10"),
        def(0x7025, "acc_set", "PP mode acceleration (rad/s^2)", ParamType::F32, rw, "10"),
        def(0x7026, "EPScan_time", "Report interval (1=10ms, +1 adds 5ms)", ParamType::U16, rw, "1"),
        def(0x7028, "canTimeout", "CAN timeout (20000=1s, 0=disabled)", ParamType::U32, rw, "0"),
        def(0x7029, "zero_sta", "Zero mode (0=0~2pi, 1=-pi~pi)", ParamType::U8, rw, "0"),
        def(0x702A, "damper", "Damper switch (0=on, 1=off)", ParamType::U8, rw, "0"),
        def(0x702B, "add_offset", "Zero offset (rad)", ParamType::F32, rw, "0"),
    ];
    assert(v@.len() == WRITABLE_COUNT);
    v
}

/// The read-only parameters: measurements and status. Older firmware may refuse to read them.
pub fn readonly_params() -> (r: Vec<ParamDef>)
    ensures
        follows_layout(r@, readonly_layout(), ParamAccess::R),
        strictly_ordered(r@),
        forall|i: int| 0 <= i < r@.len() ==> 0x3000 <= (#[trigger] r@[i]).index < 0x3100,
{
    let ro = ParamAccess::R;
    let v = vec![
        def(0x3005, "mcuTemp", "MCU temperature (*10)", ParamType::I16, ro, ""),
        def(0x3006, "motorTemp", "Motor NTC temperature (*10)", ParamType::I16, ro, ""),
        def(0x3007, "vBus_mv", "Bus voltage (mV)", ParamType::U16, ro, ""),
        def(0x300C, "VBUS", "Bus voltage (V)", ParamType::F32, ro, ""),
        def(0x300E, "cmdIq", "Iq command (A)", ParamType::F32, ro, ""),
        def(0x3015, "modPos", "Single-turn angle (rad)", ParamType::F32, ro, ""),
        def(0x3016, "mechPos", "Multi-turn position (rad)", ParamType::F32, ro, ""),
        def(0x3017, "mechVel", "Load-side velocity (rad/s)", ParamType::F32, ro, ""),
        def(0x301E, "iqf", "Filtered Iq (A)", ParamType::F32, ro, ""),
        def(0x3022, "faultSta", "Fault status word", ParamType::U32, ro, ""),
        def(0x302C, "torque_fdb", "Torque feedback (N.m)", ParamType::F32, ro, ""),
    ];
    assert(v@.len() == READONLY_COUNT);
    v
}

} // verus!
