//! The typed netlist: modules, ports, nets and cells.

use vstd::prelude::*;
use crate::json::distinct_names;
use crate::text::same_text;

verus! {

/// Names and what they stand for, in the order of the document. Where a name
/// occurs more than once, a lookup finds its first entry.
#[derive(Debug, Clone, PartialEq, Eq)]
pub struct Table<V> {
    pub entries: Vec<(String, V)>,
}

impl<V: DeepView> DeepView for Table<V> {
    type V = Seq<(Seq<char>, V::V)>;

    open spec fn deep_view(&self) -> Seq<(Seq<char>, V::V)> {
        self.entries.deep_view()
    }
}

impl<V> Table<V> {
    /// Whether no entry before position `i` has the name `name`.
    pub open spec fn absent_before(&self, name: Seq<char>, i: int) -> bool {
        forall|j: int| 0 <= j < i && j < self.entries@.len() ==> (#[trigger] self.entries@[j]).0@ != name
    }

    /// A table without entries.
    pub fn new() -> (r: Table<V>)
        ensures
            r.entries@.len() == 0,
    {
        Table { entries: Vec::new() }
    }

    /// The number of entries.
    pub fn len(&self) -> (n: usize)
        ensures
            n == self.entries@.len(),
    {
        self.entries.len()
    }

    /// Whether the table has no entry.
    pub fn is_empty(&self) -> (b: bool)
        ensures
            b == (self.entries@.len() == 0),
    {
        self.entries.len() == 0
    }

    /// What the first entry called `name` stands for, if there is such an entry.
    pub fn get(&self, name: &str) -> (r: Option<&V>)
        ensures
            match r {
                Some(v) => exists|i: int|
                    0 <= i < self.entries@.len() && (#[trigger] self.entries@[i]).0@ == name@
                        && self.absent_before(name@, i) && *v == self.entries@[i].1,
                None => self.absent_before(name@, self.entries@.len() as int),
            },
    {
        let mut i: usize = 0;
        while i < self.entries.len()
            invariant
                i <= self.entries@.len(),
                self.absent_before(name@, i as int),
            decreases self.entries@.len() - i,
        {
            if same_text(self.entries[i].0.as_str(), name) {
                return Some(&self.entries[i].1);
            }
            i += 1;
        }
        None
    }
}

/// The direction of a port or of a pin.
#[derive(Debug, Clone, Copy, PartialEq, Eq, Structural)]
pub enum Direction {
    Input,
    Output,
}

impl DeepView for Direction {
    type V = Direction;

    open spec fn deep_view(&self) -> Direction {
        *self
    }
}

/// One bit of a connection: the number of a net bit, or a constant bit
/// value written as text (`"0"`, `"1"`, `"x"`).
#[derive(Debug, Clone, PartialEq, Eq)]
pub enum NumberOrString {
    Number(u32),
    String(String),
}

/// A `NumberOrString` as a mathematical value.
pub enum NumberOrStringView {
    Number(u32),
    String(Seq<char>),
}

impl DeepView for NumberOrString {
    type V = NumberOrStringView;

    open spec fn deep_view(&self) -> NumberOrStringView {
        match self {
            NumberOrString::Number(n) => NumberOrStringView::Number(*n),
            NumberOrString::String(s) => NumberOrStringView::String(s@),
        }
    }
}

/// A port of a module: its direction and its bits, in order.
#[derive(Debug, Clone, PartialEq, Eq)]
pub struct Port {
    pub direction: Direction,
    pub bits: Vec<u32>,
}

/// A `Port` as a mathematical value.
pub struct PortView {
    pub direction: Direction,
    pub bits: Seq<u32>,
}

impl DeepView for Port {
    type V = PortView;

    open spec fn deep_view(&self) -> PortView {
        PortView { direction: self.direction, bits: self.bits@ }
    }
}

/// A net of a module. `hide_name` is 1 where the synthesis tool made the name up.
#[derive(Debug, Clone, PartialEq, Eq)]
pub struct Net {
    pub hide_name: u32,
    pub attributes: Table<String>,
    pub bits: Vec<u32>,
}

/// A `Net` as a mathematical value.
pub struct NetView {
    pub hide_name: u32,
    pub attributes: Seq<(Seq<char>, Seq<char>)>,
    pub bits: Seq<u32>,
}

impl DeepView for Net {
    type V = NetView;

    open spec fn deep_view(&self) -> NetView {
        NetView {
            hide_name: self.hide_name,
            attributes: self.attributes.deep_view(),
            bits: self.bits@,
        }
    }
}

impl NetView {
    /// Whether no attribute of the net stands twice.
    pub open spec fn well_named(self) -> bool {
        distinct_names(self.attributes)
    }
}

/// The bits that each pin of a cell is connected to.
pub type Connections = Table<Vec<NumberOrString>>;

/// What every cell has, whatever its kind.
#[derive(Debug, Clone, PartialEq, Eq)]
pub struct CellBase {
    pub hide_name: u32,
    pub attributes: Table<String>,
    pub port_directions: Table<Direction>,
    pub connections: Connections,
}

/// A `CellBase` as a mathematical value.
pub struct CellBaseView {
    pub hide_name: u32,
    pub attributes: Seq<(Seq<char>, Seq<char>)>,
    pub port_directions: Seq<(Seq<char>, Direction)>,
    pub connections: Seq<(Seq<char>, Seq<NumberOrStringView>)>,
}

impl DeepView for CellBase {
    type V = CellBaseView;

    open spec fn deep_view(&self) -> CellBaseView {
        CellBaseView {
            hide_name: self.hide_name,
            attributes: self.attributes.deep_view(),
            port_directions: self.port_directions.deep_view(),
            connections: self.connections.deep_view(),
        }
    }
}

impl CellBaseView {
    /// Whether no attribute and no pin of the cell stands twice.
    pub open spec fn well_named(self) -> bool {
        &&& distinct_names(self.attributes)
        &&& distinct_names(self.port_directions)
        &&& distinct_names(self.connections)
    }
}

/// A cell of some kind as a mathematical value: what every cell has, and
/// the parameters of its kind.
pub struct CellShape<P> {
    pub base: CellBaseView,
    pub parameters: P,
}


/// The parameters of a gate with one operand.
#[derive(Debug, Clone, Copy, PartialEq, Eq, Structural)]
pub struct UnaryCellParameters {
    pub a_signed: u32,
    pub a_width: u32,
    pub y_width: u32,
}

impl DeepView for UnaryCellParameters {
    type V = UnaryCellParameters;

    open spec fn deep_view(&self) -> UnaryCellParameters {
        *self
    }
}

/// A cell that is a gate with one operand.
#[derive(Debug, Clone, PartialEq, Eq)]
pub struct UnaryCell {
    pub base: CellBase,
    pub parameters: UnaryCellParameters,
}

impl DeepView for UnaryCell {
    type V = CellShape<UnaryCellParameters>;

    open spec fn deep_view(&self) -> CellShape<UnaryCellParameters> {
        CellShape { base: self.base.deep_view(), parameters: self.parameters }
    }
}

/// The parameters of a gate with two operands.
#[derive(Debug, Clone, Copy, PartialEq, Eq, Structural)]
pub struct BinaryCellParameters {
    pub a_signed: u32,
    pub a_width: u32,
    pub b_signed: u32,
    pub b_width: u32,
    pub y_width: u32,
}

impl DeepView for BinaryCellParameters {
    type V = BinaryCellParameters;

    open spec fn deep_view(&self) -> BinaryCellParameters {
        *self
    }
}

/// A cell that is a gate with two operands.
#[derive(Debug, Clone, PartialEq, Eq)]
pub struct BinaryCell {
    pub base: CellBase,
    pub parameters: BinaryCellParameters,
}

impl DeepView for BinaryCell {
    type V = CellShape<BinaryCellParameters>;

    open spec fn deep_view(&self) -> CellShape<BinaryCellParameters> {
        CellShape { base: self.base.deep_view(), parameters: self.parameters }
    }
}

/// The parameters of a multiplexer.
#[derive(Debug, Clone, Copy, PartialEq, Eq, Structural)]
pub struct MuxCellParameters {
    pub width: u32,
}

impl DeepView for MuxCellParameters {
    type V = MuxCellParameters;

    open spec fn deep_view(&self) -> MuxCellParameters {
        *self
    }
}

/// A cell that is a multiplexer.
#[derive(Debug, Clone, PartialEq, Eq)]
pub struct MuxCell {
    pub base: CellBase,
    pub parameters: MuxCellParameters,
}

impl DeepView for MuxCell {
    type V = CellShape<MuxCellParameters>;

    open spec fn deep_view(&self) -> CellShape<MuxCellParameters> {
        CellShape { base: self.base.deep_view(), parameters: self.parameters }
    }
}

/// The parameters of a priority multiplexer.
#[derive(Debug, Clone, Copy, PartialEq, Eq, Structural)]
pub struct PMuxCellParameters {
    pub width: u32,
    pub s_width: u32,
}

impl DeepView for PMuxCellParameters {
    type V = PMuxCellParameters;

    open spec fn deep_view(&self) -> PMuxCellParameters {
        *self
    }
}

/// A cell that is a priority multiplexer.
#[derive(Debug, Clone, PartialEq, Eq)]
pub struct PMuxCell {
    pub base: CellBase,
    pub parameters: PMuxCellParameters,
}

impl DeepView for PMuxCell {
    type V = CellShape<PMuxCellParameters>;

    open spec fn deep_view(&self) -> CellShape<PMuxCellParameters> {
        CellShape { base: self.base.deep_view(), parameters: self.parameters }
    }
}

/// The parameters of a set/reset latch.
#[derive(Debug, Clone, Copy, PartialEq, Eq, Structural)]
pub struct SrCellParameters {
    pub width: u32,
    pub set_polarity: u32,
    pub clr_polarity: u32,
}

impl DeepView for SrCellParameters {
    type V = SrCellParameters;

    open spec fn deep_view(&self) -> SrCellParameters {
        *self
    }
}

/// A cell that is a set/reset latch.
#[derive(Debug, Clone, PartialEq, Eq)]
pub struct SrCell {
    pub base: CellBase,
    pub parameters: SrCellParameters,
}

impl DeepView for SrCell {
    type V = CellShape<SrCellParameters>;

    open spec fn deep_view(&self) -> CellShape<SrCellParameters> {
        CellShape { base: self.base.deep_view(), parameters: self.parameters }
    }
}

/// The parameters of a flip-flop.
#[derive(Debug, Clone, Copy, PartialEq, Eq, Structural)]
pub struct DffCellParameters {
    pub width: u32,
    pub clk_polarity: u32,
}

impl DeepView for DffCellParameters {
    type V = DffCellParameters;

    open spec fn deep_view(&self) -> DffCellParameters {
        *self
    }
}

/// A cell that is a flip-flop.
#[derive(Debug, Clone, PartialEq, Eq)]
pub struct DffCell {
    pub base: CellBase,
    pub parameters: DffCellParameters,
}

impl DeepView for DffCell {
    type V = CellShape<DffCellParameters>;

    open spec fn deep_view(&self) -> CellShape<DffCellParameters> {
        CellShape { base: self.base.deep_view(), parameters: self.parameters }
    }
}

/// The parameters of a flip-flop with an asynchronous reset.
#[derive(Debug, Clone, Copy, PartialEq, Eq, Structural)]
pub struct ADffCellParameters {
    pub width: u32,
    pub clk_polarity: u32,
    pub arst_polarity: u32,
    pub arst_value: u32,
}

impl DeepView for ADffCellParameters {
    type V = ADffCellParameters;

    open spec fn deep_view(&self) -> ADffCellParameters {
        *self
    }
}

/// A cell that is a flip-flop with an asynchronous reset.
#[derive(Debug, Clone, PartialEq, Eq)]
pub struct ADffCell {
    pub base: CellBase,
    pub parameters: ADffCellParameters,
}

impl DeepView for ADffCell {
    type V = CellShape<ADffCellParameters>;

    open spec fn deep_view(&self) -> CellShape<ADffCellParameters> {
        CellShape { base: self.base.deep_view(), parameters: self.parameters }
    }
}

/// The parameters of a flip-flop with a synchronous reset.
#[derive(Debug, Clone, Copy, PartialEq, Eq, Structural)]
pub struct SDffCellParameters {
    pub width: u32,
    pub clk_polarity: u32,
    pub srst_polarity: u32,
    pub srst_value: u32,
}

impl DeepView for SDffCellParameters {
    type V = SDffCellParameters;

    open spec fn deep_view(&self) -> SDffCellParameters {
        *self
    }
}

/// A cell that is a flip-flop with a synchronous reset.
#[derive(Debug, Clone, PartialEq, Eq)]
pub struct SDffCell {
    pub base: CellBase,
    pub parameters: SDffCellParameters,
}

impl DeepView for SDffCell {
    type V = CellShape<SDffCellParameters>;

    open spec fn deep_view(&self) -> CellShape<SDffCellParameters> {
        CellShape { base: self.base.deep_view(), parameters: self.parameters }
    }
}

/// The parameters of a flip-flop with set and reset.
#[derive(Debug, Clone, Copy, PartialEq, Eq, Structural)]
pub struct DffsrCellParameters {
    pub width: u32,
    pub clk_polarity: u32,
    pub set_polarity: u32,
    pub clr_polarity: u32,
}

impl DeepView for DffsrCellParameters {
    type V = DffsrCellParameters;

    open spec fn deep_view(&self) -> DffsrCellParameters {
        *self
    }
}

/// A cell that is a flip-flop with set and reset.
#[derive(Debug, Clone, PartialEq, Eq)]
pub struct DffsrCell {
    pub base: CellBase,
    pub parameters: DffsrCellParameters,
}

impl DeepView for DffsrCell {
    type V = CellShape<DffsrCellParameters>;

    open spec fn deep_view(&self) -> CellShape<DffsrCellParameters> {
        CellShape { base: self.base.deep_view(), parameters: self.parameters }
    }
}

/// The parameters of a flip-flop with an enable.
#[derive(Debug, Clone, Copy, PartialEq, Eq, Structural)]
pub struct DffeCellParameters {
    pub width: u32,
    pub clk_polarity: u32,
    pub en_polarity: u32,
}

impl DeepView for DffeCellParameters {
    type V = DffeCellParameters;

    open spec fn deep_view(&self) -> DffeCellParameters {
        *self
    }
}

/// A cell that is a flip-flop with an enable.
#[derive(Debug, Clone, PartialEq, Eq)]
pub struct DffeCell {
    pub base: CellBase,
    pub parameters: DffeCellParameters,
}

impl DeepView for DffeCell {
    type V = CellShape<DffeCellParameters>;

    open spec fn deep_view(&self) -> CellShape<DffeCellParameters> {
        CellShape { base: self.base.deep_view(), parameters: self.parameters }
    }
}

/// The parameters of a flip-flop with an asynchronous reset and an enable.
#[derive(Debug, Clone, Copy, PartialEq, Eq, Structural)]
pub struct ADffeCellParameters {
    pub width: u32,
    pub clk_polarity: u32,
    pub en_polarity: u32,
    pub arst_polarity: u32,
    pub arst_value: u32,
}

impl DeepView for ADffeCellParameters {
    type V = ADffeCellParameters;

    open spec fn deep_view(&self) -> ADffeCellParameters {
        *self
    }
}

/// A cell that is a flip-flop with an asynchronous reset and an enable.
#[derive(Debug, Clone, PartialEq, Eq)]
pub struct ADffeCell {
    pub base: CellBase,
    pub parameters: ADffeCellParameters,
}

impl DeepView for ADffeCell {
    type V = CellShape<ADffeCellParameters>;

    open spec fn deep_view(&self) -> CellShape<ADffeCellParameters> {
        CellShape { base: self.base.deep_view(), parameters: self.parameters }
    }
}

/// The parameters of a flip-flop with a synchronous reset and an enable.
#[derive(Debug, Clone, Copy, PartialEq, Eq, Structural)]
pub struct SDffeCellParameters {
    pub width: u32,
    pub clk_polarity: u32,
    pub en_polarity: u32,
    pub srst_polarity: u32,
    pub srst_value: u32,
}

impl DeepView for SDffeCellParameters {
    type V = SDffeCellParameters;

    open spec fn deep_view(&self) -> SDffeCellParameters {
        *self
    }
}

/// A cell that is a flip-flop with a synchronous reset and an enable.
#[derive(Debug, Clone, PartialEq, Eq)]
pub struct SDffeCell {
    pub base: CellBase,
    pub parameters: SDffeCellParameters,
}

impl DeepView for SDffeCell {
    type V = CellShape<SDffeCellParameters>;

    open spec fn deep_view(&self) -> CellShape<SDffeCellParameters> {
        CellShape { base: self.base.deep_view(), parameters: self.parameters }
    }
}

/// The parameters of a flip-flop with set, reset and an enable.
#[derive(Debug, Clone, Copy, PartialEq, Eq, Structural)]
pub struct DffsreCellParameters {
    pub width: u32,
    pub clk_polarity: u32,
    pub set_polarity: u32,
    pub clr_polarity: u32,
    pub en_polarity: u32,
}

impl DeepView for DffsreCellParameters {
    type V = DffsreCellParameters;

    open spec fn deep_view(&self) -> DffsreCellParameters {
        *self
    }
}

/// A cell that is a flip-flop with set, reset and an enable.
#[derive(Debug, Clone, PartialEq, Eq)]
pub struct DffsreCell {
    pub base: CellBase,
    pub parameters: DffsreCellParameters,
}

impl DeepView for DffsreCell {
    type V = CellShape<DffsreCellParameters>;

    open spec fn deep_view(&self) -> CellShape<DffsreCellParameters> {
        CellShape { base: self.base.deep_view(), parameters: self.parameters }
    }
}

/// The parameters of a memory. The identifier and the four bit strings are
/// kept as the document spells them.
#[derive(Debug, Clone, PartialEq, Eq)]
pub struct MemCellParameters {
    pub memid: String,
    pub size: u32,
    pub abits: u32,
    pub width: u32,
    pub init: String,
    pub offset: u32,
    pub rd_ports: u32,
    pub rd_wide_continuation: u32,
    pub rd_clk_enable: u32,
    pub rd_clk_polarity: u32,
    pub rd_transparency_mask: u32,
    pub rd_collision_x_mask: u32,
    pub rd_ce_over_srst: u32,
    pub rd_init_value: String,
    pub rd_arst_value: String,
    pub rd_srst_value: String,
    pub wr_ports: u32,
    pub wr_wide_continuation: u32,
    pub wr_clk_enable: u32,
    pub wr_clk_polarity: u32,
    pub wr_priority_mask: u32,
}

/// `MemCellParameters` as a mathematical value.
pub struct MemCellParametersView {
    pub memid: Seq<char>,
    pub size: u32,
    pub abits: u32,
    pub width: u32,
    pub init: Seq<char>,
    pub offset: u32,
    pub rd_ports: u32,
    pub rd_wide_continuation: u32,
    pub rd_clk_enable: u32,
    pub rd_clk_polarity: u32,
    pub rd_transparency_mask: u32,
    pub rd_collision_x_mask: u32,
    pub rd_ce_over_srst: u32,
    pub rd_init_value: Seq<char>,
    pub rd_arst_value: Seq<char>,
    pub rd_srst_value: Seq<char>,
    pub wr_ports: u32,
    pub wr_wide_continuation: u32,
    pub wr_clk_enable: u32,
    pub wr_clk_polarity: u32,
    pub wr_priority_mask: u32,
}

impl DeepView for MemCellParameters {
    type V = MemCellParametersView;

    open spec fn deep_view(&self) -> MemCellParametersView {
        MemCellParametersView {
            memid: self.memid@,
            size: self.size,
            abits: self.abits,
            width: self.width,
            init: self.init@,
            offset: self.offset,
            rd_ports: self.rd_ports,
            rd_wide_continuation: self.rd_wide_continuation,
            rd_clk_enable: self.rd_clk_enable,
            rd_clk_polarity: self.rd_clk_polarity,
            rd_transparency_mask: self.rd_transparency_mask,
            rd_collision_x_mask: self.rd_collision_x_mask,
            rd_ce_over_srst: self.rd_ce_over_srst,
            rd_init_value: self.rd_init_value@,
            rd_arst_value: self.rd_arst_value@,
            rd_srst_value: self.rd_srst_value@,
            wr_ports: self.wr_ports,
            wr_wide_continuation: self.wr_wide_continuation,
            wr_clk_enable: self.wr_clk_enable,
            wr_clk_polarity: self.wr_clk_polarity,
            wr_priority_mask: self.wr_priority_mask,
        }
    }
}

/// A cell that is a memory.
#[derive(Debug, Clone, PartialEq, Eq)]
pub struct MemCell {
    pub base: CellBase,
    pub parameters: MemCellParameters,
}

impl DeepView for MemCell {
    type V = CellShape<MemCellParametersView>;

    open spec fn deep_view(&self) -> CellShape<MemCellParametersView> {
        CellShape { base: self.base.deep_view(), parameters: self.parameters.deep_view() }
    }
}

/// A cell that prints; it has no parameters of its own.
#[derive(Debug, Clone, PartialEq, Eq)]
pub struct PrintCell {
    pub base: CellBase,
}

impl DeepView for PrintCell {
    type V = CellBaseView;

    open spec fn deep_view(&self) -> CellBaseView {
        self.base.deep_view()
    }
}

/// A cell of a module.
#[derive(Debug, Clone, PartialEq, Eq)]
pub enum Cell {
    UnaryCell(UnaryCell),
    BinaryCell(BinaryCell),
    MuxCell(MuxCell),
    PMuxCell(PMuxCell),
    SrCell(SrCell),
    DffCell(DffCell),
    ADffCell(ADffCell),
    SDffCell(SDffCell),
    DffsrCell(DffsrCell),
    DffeCell(DffeCell),
    ADffeCell(ADffeCell),
    SDffeCell(SDffeCell),
    DffsreCell(DffsreCell),
    MemCell(MemCell),
    PrintCell(PrintCell),
}

/// A `Cell` as a mathematical value.
pub enum CellView {
    UnaryCell(CellShape<UnaryCellParameters>),
    BinaryCell(CellShape<BinaryCellParameters>),
    MuxCell(CellShape<MuxCellParameters>),
    PMuxCell(CellShape<PMuxCellParameters>),
    SrCell(CellShape<SrCellParameters>),
    DffCell(CellShape<DffCellParameters>),
    ADffCell(CellShape<ADffCellParameters>),
    SDffCell(CellShape<SDffCellParameters>),
    DffsrCell(CellShape<DffsrCellParameters>),
    DffeCell(CellShape<DffeCellParameters>),
    ADffeCell(CellShape<ADffeCellParameters>),
    SDffeCell(CellShape<SDffeCellParameters>),
    DffsreCell(CellShape<DffsreCellParameters>),
    MemCell(CellShape<MemCellParametersView>),
    PrintCell(CellBaseView),
}

impl DeepView for Cell {
    type V = CellView;

    open spec fn deep_view(&self) -> CellView {
        match self {
            Cell::UnaryCell(c) => CellView::UnaryCell(c.deep_view()),
            Cell::BinaryCell(c) => CellView::BinaryCell(c.deep_view()),
            Cell::MuxCell(c) => CellView::MuxCell(c.deep_view()),
            Cell::PMuxCell(c) => CellView::PMuxCell(c.deep_view()),
            Cell::SrCell(c) => CellView::SrCell(c.deep_view()),
            Cell::DffCell(c) => CellView::DffCell(c.deep_view()),
            Cell::ADffCell(c) => CellView::ADffCell(c.deep_view()),
            Cell::SDffCell(c) => CellView::SDffCell(c.deep_view()),
            Cell::DffsrCell(c) => CellView::DffsrCell(c.deep_view()),
            Cell::DffeCell(c) => CellView::DffeCell(c.deep_view()),
            Cell::ADffeCell(c) => CellView::ADffeCell(c.deep_view()),
            Cell::SDffeCell(c) => CellView::SDffeCell(c.deep_view()),
            Cell::DffsreCell(c) => CellView::DffsreCell(c.deep_view()),
            Cell::MemCell(c) => CellView::MemCell(c.deep_view()),
            Cell::PrintCell(c) => CellView::PrintCell(c.deep_view()),
        }
    }
}

impl CellView {
    /// What the cell has whatever its kind.
    pub open spec fn base(self) -> CellBaseView {
        match self {
            CellView::UnaryCell(c) => c.base,
            CellView::BinaryCell(c) => c.base,
            CellView::MuxCell(c) => c.base,
            CellView::PMuxCell(c) => c.base,
            CellView::SrCell(c) => c.base,
            CellView::DffCell(c) => c.base,
            CellView::ADffCell(c) => c.base,
            CellView::SDffCell(c) => c.base,
            CellView::DffsrCell(c) => c.base,
            CellView::DffeCell(c) => c.base,
            CellView::ADffeCell(c) => c.base,
            CellView::SDffeCell(c) => c.base,
            CellView::DffsreCell(c) => c.base,
            CellView::MemCell(c) => c.base,
            CellView::PrintCell(b) => b,
        }
    }
}

impl Cell {
    /// What the cell has whatever its kind.
    pub fn base(&self) -> (b: &CellBase)
        ensures
            b.deep_view() == self.deep_view().base(),
    {
        match self {
            Cell::UnaryCell(c) => &c.base,
            Cell::BinaryCell(c) => &c.base,
            Cell::MuxCell(c) => &c.base,
            Cell::PMuxCell(c) => &c.base,
            Cell::SrCell(c) => &c.base,
            Cell::DffCell(c) => &c.base,
            Cell::ADffCell(c) => &c.base,
            Cell::SDffCell(c) => &c.base,
            Cell::DffsrCell(c) => &c.base,
            Cell::DffeCell(c) => &c.base,
            Cell::ADffeCell(c) => &c.base,
            Cell::SDffeCell(c) => &c.base,
            Cell::DffsreCell(c) => &c.base,
            Cell::MemCell(c) => &c.base,
            Cell::PrintCell(c) => &c.base,
        }
    }
}

/// A module: its ports, cells and nets by name.
#[derive(Debug, Clone, PartialEq, Eq)]
pub struct Module {
    pub attributes: Table<String>,
    pub parameter_default_values: Option<Table<String>>,
    pub ports: Table<Port>,
    pub cells: Table<Cell>,
    pub netnames: Table<Net>,
}

/// A `Module` as a mathematical value.
pub struct ModuleView {
    pub attributes: Seq<(Seq<char>, Seq<char>)>,
    pub parameter_default_values: Option<Seq<(Seq<char>, Seq<char>)>>,
    pub ports: Seq<(Seq<char>, PortView)>,
    pub cells: Seq<(Seq<char>, CellView)>,
    pub netnames: Seq<(Seq<char>, NetView)>,
}

impl DeepView for Module {
    type V = ModuleView;

    open spec fn deep_view(&self) -> ModuleView {
        ModuleView {
            attributes: self.attributes.deep_view(),
            parameter_default_values: self.parameter_default_values.deep_view(),
            ports: self.ports.deep_view(),
            cells: self.cells.deep_view(),
            netnames: self.netnames.deep_view(),
        }
    }
}

impl ModuleView {
    /// Whether no name stands twice in the module: no attribute, no
    /// default value, no port, no cell and no net, nor any name in a cell or a net.
    pub open spec fn well_named(self) -> bool {
        &&& distinct_names(self.attributes)
        &&& self.parameter_default_values matches Some(defaults) ==> distinct_names(defaults)
        &&& distinct_names(self.ports)
        &&& distinct_names(self.cells)
        &&& distinct_names(self.netnames)
        &&& forall|i: int| 0 <= i < self.cells.len() ==> (#[trigger] self.cells[i]).1.base().well_named()
        &&& forall|i: int| 0 <= i < self.netnames.len() ==> (#[trigger] self.netnames[i]).1.well_named()
    }
}

/// A design: the modules that the synthesis tool wrote, by name.
#[derive(Debug, Clone, PartialEq, Eq)]
pub struct YosysData {
    pub creator: String,
    pub modules: Table<Module>,
}

/// `YosysData` as a mathematical value.
pub struct YosysDataView {
    pub creator: Seq<char>,
    pub modules: Seq<(Seq<char>, ModuleView)>,
}

impl YosysDataView {
    /// Whether no name stands twice in the design: no module, nor any name in a module.
    pub open spec fn well_named(self) -> bool {
        &&& distinct_names(self.modules)
        &&& forall|i: int| 0 <= i < self.modules.len() ==> (#[trigger] self.modules[i]).1.well_named()
    }
}

impl DeepView for YosysData {
    type V = YosysDataView;

    open spec fn deep_view(&self) -> YosysDataView {
        YosysDataView { creator: self.creator@, modules: self.modules.deep_view() }
    }
}

} // verus!
