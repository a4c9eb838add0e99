//! The closed set of query regions, and the command that shows and selects
//! the active one.
use vstd::prelude::*;
use vstd::string::*;
use crate::commands::{Command, CommandKind};
use crate::text::same_text;

verus! {

/// A platform that queries are routed to.
#[derive(Clone, Copy, Debug, PartialEq, Eq, Structural)]
pub enum Region {
    BR1,
    EUN1,
    EUW1,
    JP1,
    KR,
    NA1,
    OC1,
    RU,
    LA1,
    LA2,
    ME1,
    PH2,
    SG2,
    TH2,
    TR1,
    TW2,
    VN2,
    PBE1,
}

impl Region {
    /// The platform code, as a user types it.
    pub open spec fn spec_code(self) -> Seq<char> {
        match self {
            Region::BR1 => "BR1"@,
            Region::EUN1 => "EUN1"@,
            Region::EUW1 => "EUW1"@,
            Region::JP1 => "JP1"@,
            Region::KR => "KR"@,
            Region::NA1 => "NA1"@,
            Region::OC1 => "OC1"@,
            Region::RU => "RU"@,
            Region::LA1 => "LA1"@,
            Region::LA2 => "LA2"@,
            Region::ME1 => "ME1"@,
            Region::PH2 => "PH2"@,
            Region::SG2 => "SG2"@,
            Region::TH2 => "TH2"@,
            Region::TR1 => "TR1"@,
            Region::TW2 => "TW2"@,
            Region::VN2 => "VN2"@,
            Region::PBE1 => "PBE1"@,
        }
    }

    /// The human-readable label, which ends in the code in parentheses.
    pub open spec fn spec_label(self) -> Seq<char> {
        match self {
            Region::BR1 => "Brazil (BR1)"@,
            Region::EUN1 => "EUNE (EUN1)"@,
            Region::EUW1 => "EUW (EUW1)"@,
            Region::JP1 => "Japan (JP1)"@,
            Region::KR => "South Korea (KR)"@,
            Region::NA1 => "North America (NA1)"@,
            Region::OC1 => "Oceania (OC1)"@,
            Region::RU => "Russia (RU)"@,
            Region::LA1 => "Latin America (LA1)"@,
            Region::LA2 => "Latin America (LA2)"@,
            Region::ME1 => "Middle East (ME1)"@,
            Region::PH2 => "Philippines (PH2)"@,
            Region::SG2 => "Singapore (SG2)"@,
            Region::TH2 => "Thailand (TH2)"@,
            Region::TR1 => "Turkey (TR1)"@,
            Region::TW2 => "Taiwan (TW2)"@,
            Region::VN2 => "Vietnam (VN2)"@,
            Region::PBE1 => "PBE (PBE1)"@,
        }
    }

    /// The short region name that players know, as riven's
    /// `PlatformRoute::as_region_str` gives it for this platform.
    pub open spec fn spec_region_name(self) -> Seq<char> {
        match self {
            Region::BR1 => "BR"@,
            Region::EUN1 => "EUNE"@,
            Region::EUW1 => "EUW"@,
            Region::JP1 => "JP"@,
            Region::KR => "KR"@,
            Region::NA1 => "NA"@,
            Region::OC1 => "OCE"@,
            Region::RU => "RU"@,
            Region::LA1 => "LAN"@,
            Region::LA2 => "LAS"@,
            Region::ME1 => "MENA"@,
            Region::PH2 => "PH"@,
            Region::SG2 => "SG"@,
            Region::TH2 => "TH"@,
            Region::TR1 => "TR"@,
            Region::TW2 => "TW"@,
            Region::VN2 => "VN"@,
            Region::PBE1 => "PBE"@,
        }
    }

    /// The short region name that players know.
    pub fn region_name(&self) -> (r: &'static str)
        ensures
            r@ == self.spec_region_name(),
    {
        proof {
            lemma_code_selects_region(*self);
        }
        match platform_region_str(self.code()) {
            Some(name) => name,
            None => self.code(),
        }
    }

    /// The platform code, as a user types it.
    pub fn code(&self) -> (r: &'static str)
        ensures
            r@ == self.spec_code(),
    {
        match self {
            Region::BR1 => "BR1",
            Region::EUN1 => "EUN1",
            Region::EUW1 => "EUW1",
            Region::JP1 => "JP1",
            Region::KR => "KR",
            Region::NA1 => "NA1",
            Region::OC1 => "OC1",
            Region::RU => "RU",
            Region::LA1 => "LA1",
            Region::LA2 => "LA2",
            Region::ME1 => "ME1",
            Region::PH2 => "PH2",
            Region::SG2 => "SG2",
            Region::TH2 => "TH2",
            Region::TR1 => "TR1",
            Region::TW2 => "TW2",
            Region::VN2 => "VN2",
            Region::PBE1 => "PBE1",
        }
    }

    /// The human-readable label.
    pub fn label(&self) -> (r: &'static str)
        ensures
            r@ == self.spec_label(),
    {
        match self {
            Region::BR1 => "Brazil (BR1)",
            Region::EUN1 => "EUNE (EUN1)",
            Region::EUW1 => "EUW (EUW1)",
            Region::JP1 => "Japan (JP1)",
            Region::KR => "South Korea (KR)",
            Region::NA1 => "North America (NA1)",
            Region::OC1 => "Oceania (OC1)",
            Region::RU => "Russia (RU)",
            Region::LA1 => "Latin America (LA1)",
            Region::LA2 => "Latin America (LA2)",
            Region::ME1 => "Middle East (ME1)",
            Region::PH2 => "Philippines (PH2)",
            Region::SG2 => "Singapore (SG2)",
            Region::TH2 => "Thailand (TH2)",
            Region::TR1 => "Turkey (TR1)",
            Region::TW2 => "Taiwan (TW2)",
            Region::VN2 => "Vietnam (VN2)",
            Region::PBE1 => "PBE (PBE1)",
        }
    }
}

/// Relies on riven's `PlatformRoute`: its `FromStr` reads each platform code
/// back as that platform, and `as_region_str` gives the platform's short
/// region name.
#[verifier::external_body]
fn platform_region_str(code: &str) -> (r: Option<&'static str>)
    ensures
        match region_of_token(code@) {
            Some(region) => r is Some && r->0@ == region.spec_region_name(),
            None => true,
        },
{
    code.parse::<riven::consts::PlatformRoute>()
        .ok()
        .map(riven::consts::PlatformRoute::as_region_str)
}

/// Every region, in the order they are offered for selection.
pub open spec fn all_regions() -> Seq<Region> {
    seq![
        Region::BR1,
        Region::EUN1,
        Region::EUW1,
        Region::JP1,
        Region::KR,
        Region::NA1,
        Region::OC1,
        Region::RU,
        Region::LA1,
        Region::LA2,
        Region::ME1,
        Region::PH2,
        Region::SG2,
        Region::TH2,
        Region::TR1,
        Region::TW2,
        Region::VN2,
        Region::PBE1,
    ]
}

/// The region whose code is exactly `t`, if any.
pub open spec fn region_of_token(t: Seq<char>) -> Option<Region> {
    if t == "BR1"@ {
        Some(Region::BR1)
    } else if t == "EUN1"@ {
        Some(Region::EUN1)
    } else if t == "EUW1"@ {
        Some(Region::EUW1)
    } else if t == "JP1"@ {
        Some(Region::JP1)
    } else if t == "KR"@ {
        Some(Region::KR)
    } else if t == "NA1"@ {
        Some(Region::NA1)
    } else if t == "OC1"@ {
        Some(Region::OC1)
    } else if t == "RU"@ {
        Some(Region::RU)
    } else if t == "LA1"@ {
        Some(Region::LA1)
    } else if t == "LA2"@ {
        Some(Region::LA2)
    } else if t == "ME1"@ {
        Some(Region::ME1)
    } else if t == "PH2"@ {
        Some(Region::PH2)
    } else if t == "SG2"@ {
        Some(Region::SG2)
    } else if t == "TH2"@ {
        Some(Region::TH2)
    } else if t == "TR1"@ {
        Some(Region::TR1)
    } else if t == "TW2"@ {
        Some(Region::TW2)
    } else if t == "VN2"@ {
        Some(Region::VN2)
    } else if t == "PBE1"@ {
        Some(Region::PBE1)
    } else {
        None
    }
}

/// Reads a region code; anything but one of the exact codes gives `None`.
pub fn parse_region(t: &str) -> (r: Option<Region>)
    ensures
        r == region_of_token(t@),
{
    if same_text(t, "BR1") {
        Some(Region::BR1)
    } else if same_text(t, "EUN1") {
        Some(Region::EUN1)
    } else if same_text(t, "EUW1") {
        Some(Region::EUW1)
    } else if same_text(t, "JP1") {
        Some(Region::JP1)
    } else if same_text(t, "KR") {
        Some(Region::KR)
    } else if same_text(t, "NA1") {
        Some(Region::NA1)
    } else if same_text(t, "OC1") {
        Some(Region::OC1)
    } else if same_text(t, "RU") {
        Some(Region::RU)
    } else if same_text(t, "LA1") {
        Some(Region::LA1)
    } else if same_text(t, "LA2") {
        Some(Region::LA2)
    } else if same_text(t, "ME1") {
        Some(Region::ME1)
    } else if same_text(t, "PH2") {
        Some(Region::PH2)
    } else if same_text(t, "SG2") {
        Some(Region::SG2)
    } else if same_text(t, "TH2") {
        Some(Region::TH2)
    } else if same_text(t, "TR1") {
        Some(Region::TR1)
    } else if same_text(t, "TW2") {
        Some(Region::TW2)
    } else if same_text(t, "VN2") {
        Some(Region::VN2)
    } else if same_text(t, "PBE1") {
        Some(Region::PBE1)
    } else {
        None
    }
}

/// Every region's code reads back as that region, so each region can be
/// selected by its code, and codes of different regions differ.
pub proof fn lemma_code_selects_region(r: Region)
    ensures
        region_of_token(r.spec_code()) == Some(r),
{
    reveal_strlit("BR1");
    reveal_strlit("EUN1");
    reveal_strlit("EUW1");
    reveal_strlit("JP1");
    reveal_strlit("KR");
    reveal_strlit("NA1");
    reveal_strlit("OC1");
    reveal_strlit("RU");
    reveal_strlit("LA1");
    reveal_strlit("LA2");
    reveal_strlit("ME1");
    reveal_strlit("PH2");
    reveal_strlit("SG2");
    reveal_strlit("TH2");
    reveal_strlit("TR1");
    reveal_strlit("TW2");
    reveal_strlit("VN2");
    reveal_strlit("PBE1");
    let t = r.spec_code();
    match r {
        Region::BR1 => {
            assert(t[0] == 'B');
            assert(t[1] == 'R');
            assert(t[2] == '1');
            assert(t.len() == 3);
        },
        Region::EUN1 => {
            assert(t[0] == 'E');
            assert(t[1] == 'U');
            assert(t[2] == 'N');
            assert(t[3] == '1');
            assert(t.len() == 4);
        },
        Region::EUW1 => {
            assert(t[0] == 'E');
            assert(t[1] == 'U');
            assert(t[2] == 'W');
            assert(t[3] == '1');
            assert(t.len() == 4);
        },
        Region::JP1 => {
            assert(t[0] == 'J');
            assert(t[1] == 'P');
            assert(t[2] == '1');
            assert(t.len() == 3);
        },
        Region::KR => {
            assert(t[0] == 'K');
            assert(t[1] == 'R');
            assert(t.len() == 2);
        },
        Region::NA1 => {
            assert(t[0] == 'N');
            assert(t[1] == 'A');
            assert(t[2] == '1');
            assert(t.len() == 3);
        },
        Region::OC1 => {
            assert(t[0] == 'O');
            assert(t[1] == 'C');
            assert(t[2] == '1');
            assert(t.len() == 3);
        },
        Region::RU => {
            assert(t[0] == 'R');
            assert(t[1] == 'U');
            assert(t.len() == 2);
        },
        Region::LA1 => {
            assert(t[0] == 'L');
            assert(t[1] == 'A');
            assert(t[2] == '1');
            assert(t.len() == 3);
        },
        Region::LA2 => {
            assert(t[0] == 'L');
            assert(t[1] == 'A');
            assert(t[2] == '2');
            assert(t.len() == 3);
        },
        Region::ME1 => {
            assert(t[0] == 'M');
            assert(t[1] == 'E');
            assert(t[2] == '1');
            assert(t.len() == 3);
        },
        Region::PH2 => {
            assert(t[0] == 'P');
            assert(t[1] == 'H');
            assert(t[2] == '2');
            assert(t.len() == 3);
        },
        Region::SG2 => {
            assert(t[0] == 'S');
            assert(t[1] == 'G');
            assert(t[2] == '2');
            assert(t.len() == 3);
        },
        Region::TH2 => {
            assert(t[0] == 'T');
            assert(t[1] == 'H');
            assert(t[2] == '2');
            assert(t.len() == 3);
        },
        Region::TR1 => {
            assert(t[0] == 'T');
            assert(t[1] == 'R');
            assert(t[2] == '1');
            assert(t.len() == 3);
        },
        Region::TW2 => {
            assert(t[0] == 'T');
            assert(t[1] == 'W');
            assert(t[2] == '2');
            assert(t.len() == 3);
        },
        Region::VN2 => {
            assert(t[0] == 'V');
            assert(t[1] == 'N');
            assert(t[2] == '2');
            assert(t.len() == 3);
        },
        Region::PBE1 => {
            assert(t[0] == 'P');
            assert(t[1] == 'B');
            assert(t[2] == 'E');
            assert(t[3] == '1');
            assert(t.len() == 4);
        },
    }
}

/// The offered options name every region, each once.
pub proof fn lemma_all_regions_listed(r: Region)
    ensures
        all_regions().contains(r),
        all_regions().len() == 18,
{
    let s = all_regions();
    match r {
        Region::BR1 => assert(s[0] == r),
        Region::EUN1 => assert(s[1] == r),
        Region::EUW1 => assert(s[2] == r),
        Region::JP1 => assert(s[3] == r),
        Region::KR => assert(s[4] == r),
        Region::NA1 => assert(s[5] == r),
        Region::OC1 => assert(s[6] == r),
        Region::RU => assert(s[7] == r),
        Region::LA1 => assert(s[8] == r),
        Region::LA2 => assert(s[9] == r),
        Region::ME1 => assert(s[10] == r),
        Region::PH2 => assert(s[11] == r),
        Region::SG2 => assert(s[12] == r),
        Region::TH2 => assert(s[13] == r),
        Region::TR1 => assert(s[14] == r),
        Region::TW2 => assert(s[15] == r),
        Region::VN2 => assert(s[16] == r),
        Region::PBE1 => assert(s[17] == r),
    }
}

/// One entry of the region selection list: what is shown and what is sent back.
pub struct RegionOption {
    pub label: String,
    pub value: String,
}

/// The reply that reports `r` as the active region.
pub open spec fn region_reply(r: Region) -> Seq<char> {
    "\u{1f4cd} **Current region:** `"@ + r.spec_label() + "`"@
}

/// Holds the active region, which is always one of the closed set, and
/// answers the command that shows and changes it.
///
/// Reads take `&self` and writes `&mut self`, so a shared holder needs one
/// lock around each call and none across anything else.
pub struct RegionCommand {
    current: Region,
}

impl View for RegionCommand {
    type V = Region;

    closed spec fn view(&self) -> Region {
        self.current
    }
}

impl RegionCommand {
    /// The active region after `set_current_region(r)`.
    pub open spec fn spec_set(self, r: Region) -> Region {
        r
    }

    /// A store whose active region is the default one, `RU`.
    pub fn new() -> (r: RegionCommand)
        ensures
            r@ == Region::RU,
    {
        RegionCommand { current: Region::RU }
    }

    /// Replaces the active region, whatever it was.
    pub fn set_current_region(&mut self, new_region: Region)
        ensures
            final(self)@ == old(self).spec_set(new_region),
    {
        self.current = new_region;
    }

    /// The active region.
    pub fn get_region(&self) -> (r: Region)
        ensures
            r == self@,
    {
        self.current
    }

    /// The label of the active region.
    pub fn get_region_string(&self) -> (r: String)
        ensures
            r@ == self@.spec_label(),
    {
        String::from_str(self.current.label())
    }

    /// The selection list: every region's label and code, in the order of
    /// `all_regions`.
    pub fn region_options(&self) -> (r: Vec<RegionOption>)
        ensures
            r@.len() == all_regions().len(),
            forall|i: int|
                0 <= i < r@.len() ==> {
                    &&& r@[i].label@ == all_regions()[i].spec_label()
                    &&& r@[i].value@ == all_regions()[i].spec_code()
                },
    {
        let regions: Vec<Region> = vec![
            Region::BR1, Region::EUN1, Region::EUW1, Region::JP1, Region::KR, Region::NA1,
            Region::OC1, Region::RU, Region::LA1, Region::LA2, Region::ME1, Region::PH2,
            Region::SG2, Region::TH2, Region::TR1, Region::TW2, Region::VN2, Region::PBE1,
        ];
        assert(regions@ =~= all_regions());
        let mut out: Vec<RegionOption> = Vec::new();
        let mut i: usize = 0;
        while i < regions.len()
            invariant
                regions@ == all_regions(),
                i <= regions@.len(),
                out@.len() == i,
                forall|k: int|
                    0 <= k < i ==> {
                        &&& out@[k].label@ == all_regions()[k].spec_label()
                        &&& out@[k].value@ == all_regions()[k].spec_code()
                    },
            decreases regions@.len() - i,
        {
            let r = regions[i];
            out.push(RegionOption {
                label: String::from_str(r.label()),
                value: String::from_str(r.code()),
            });
            i = i + 1;
        }
        out
    }

    /// Handles a typed or selected token: a region code makes that region
    /// active, anything else leaves the active region as it was. The reply
    /// names the region that is active afterwards.
    pub fn handle(&mut self, token: &str) -> (reply: String)
        ensures
            final(self)@ == (match region_of_token(token@) {
                Some(r) => r,
                None => old(self)@,
            }),
            reply@ == region_reply(final(self)@),
    {
        match parse_region(token) {
            Some(r) => self.set_current_region(r),
            None => {},
        }
        let mut reply = String::from_str("\u{1f4cd} **Current region:** `");
        reply.append(self.current.label());
        reply.append("`");
        reply
    }
}

/// After a write of `x`, every read that no other write precedes returns
/// `x`, however many reads there are, and what a read returns is always one
/// of the offered regions.
pub proof fn lemma_reads_see_last_write(
    before: RegionCommand,
    after: RegionCommand,
    x: Region,
    reads: Seq<Region>,
)
    requires
        after@ == before.spec_set(x),
        forall|k: int| 0 <= k < reads.len() ==> reads[k] == after@,
    ensures
        forall|k: int| 0 <= k < reads.len() ==> reads[k] == x,
        forall|k: int| 0 <= k < reads.len() ==> all_regions().contains(reads[k]),
{
    lemma_all_regions_listed(x);
}

impl Command for RegionCommand {
    open spec fn spec_name(&self) -> Seq<char> {
        CommandKind::Region.spec_name()
    }

    open spec fn spec_description(&self) -> Seq<char> {
        CommandKind::Region.spec_description()
    }

    fn name(&self) -> (r: &'static str) {
        CommandKind::Region.name()
    }

    fn description(&self) -> (r: &'static str) {
        CommandKind::Region.description()
    }
}

} // verus!
