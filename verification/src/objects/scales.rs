use vstd::prelude::*;
use crate::callback::{fresh, FnWithArgs};
use crate::decode::{
    defaulted_readable, defaulted_reads, optional_readable, optional_reads, read_defaulted,
    read_optional, read_skipped, skipped_reads,
};
use crate::entries::{
    convert_all, finish, list_entry, option_entry, put_list, put_option, put_scalar, scalar_entry,
};
use crate::objects::style::{Font, Padding, Title};
use crate::scalar::{NumberOrDateString, NumberString};
use crate::value::{members_view, JsValue, JsView};
use crate::wire::{DecodeError, Deserialize, Serialize};

verus! {

/// The line along an axis.
#[derive(Debug, Clone, PartialEq, Eq)]
pub struct ScaleBorder {
    pub color: String,
    pub dash: Vec<NumberString>,
    pub dashOffset: NumberString,
    pub display: Option<bool>,
    pub width: NumberString,
    pub z: NumberString,
}

impl ScaleBorder {
    /// Whether every field is as `new` leaves it: nothing is set.
    pub open spec fn is_new(&self) -> bool {
        &&& self.color@.len() == 0
        &&& self.dash@.len() == 0
        &&& self.dashOffset@.len() == 0
        &&& self.display is None
        &&& self.width@.len() == 0
        &&& self.z@.len() == 0
    }

    /// The wire form: an object with one member for each field that is
    /// set, in the order of the fields.
    pub open spec fn wire_form(&self) -> JsView {
        JsView::Object(
            Seq::empty()
                + scalar_entry("color"@, self.color)
                + list_entry("dash"@, self.dash@)
                + scalar_entry("dashOffset"@, self.dashOffset)
                + option_entry("display"@, self.display)
                + scalar_entry("width"@, self.width)
                + scalar_entry("z"@, self.z)
        )
    }

    /// The value with nothing set.
    pub fn new() -> (r: Self)
        ensures
            r.is_new(),
    {
        ScaleBorder {
            color: String::new(),
            dash: Vec::new(),
            dashOffset: NumberString::default(),
            display: None,
            width: NumberString::default(),
            z: NumberString::default(),
        }
    }

    /// The field `color`, to read or to change in place.
    pub fn get_color(&mut self) -> (r: &mut String)
        ensures
            *r == old(self).color,
            *final(self) == (ScaleBorder { color: *final(r), ..*old(self) }),
    {
        &mut self.color
    }

    /// Sets `color`.
    pub fn color<V: Into<String>>(self, value: V) -> (r: ScaleBorder)
        ensures
            call_ensures(<V as Into<String>>::into, (value,), r.color),
            r == (ScaleBorder { color: r.color, ..self }),
    {
        let mut s = self;
        s.color = value.into();
        s
    }

    /// The field `dash`, to read or to change in place.
    pub fn get_dash(&mut self) -> (r: &mut Vec<NumberString>)
        ensures
            *r == old(self).dash,
            *final(self) == (ScaleBorder { dash: *final(r), ..*old(self) }),
    {
        &mut self.dash
    }

    /// Sets `dash`: each of the given values, turned into a `NumberString`.
    pub fn dash<T: Into<NumberString>>(self, value: Vec<T>) -> (r: ScaleBorder)
        ensures
            r.dash@.len() == value@.len(),
            forall|i: int|
                0 <= i < value@.len() ==> call_ensures(
                    <T as Into<NumberString>>::into,
                    (value@[i],),
                    #[trigger] r.dash@[i],
                ),
            r == (ScaleBorder { dash: r.dash, ..self }),
    {
        let mut s = self;
        s.dash = convert_all(value);
        s
    }

    /// The field `dashOffset`, to read or to change in place.
    pub fn get_dash_offset(&mut self) -> (r: &mut NumberString)
        ensures
            *r == old(self).dashOffset,
            *final(self) == (ScaleBorder { dashOffset: *final(r), ..*old(self) }),
    {
        &mut self.dashOffset
    }

    /// Sets `dashOffset`.
    pub fn dash_offset<V: Into<NumberString>>(self, value: V) -> (r: ScaleBorder)
        ensures
            call_ensures(<V as Into<NumberString>>::into, (value,), r.dashOffset),
            r == (ScaleBorder { dashOffset: r.dashOffset, ..self }),
    {
        let mut s = self;
        s.dashOffset = value.into();
        s
    }

    /// The field `display`, to read or to change in place.
    pub fn get_display(&mut self) -> (r: &mut Option<bool>)
        ensures
            *r == old(self).display,
            *final(self) == (ScaleBorder { display: *final(r), ..*old(self) }),
    {
        &mut self.display
    }

    /// Sets `display`.
    pub fn display<V: Into<bool>>(self, value: V) -> (r: ScaleBorder)
        ensures
            r.display matches Some(x) && call_ensures(<V as Into<bool>>::into, (value,), x),
            r == (ScaleBorder { display: r.display, ..self }),
    {
        let mut s = self;
        s.display = Some(value.into());
        s
    }

    /// The field `width`, to read or to change in place.
    pub fn get_width(&mut self) -> (r: &mut NumberString)
        ensures
            *r == old(self).width,
            *final(self) == (ScaleBorder { width: *final(r), ..*old(self) }),
    {
        &mut self.width
    }

    /// Sets `width`.
    pub fn width<V: Into<NumberString>>(self, value: V) -> (r: ScaleBorder)
        ensures
            call_ensures(<V as Into<NumberString>>::into, (value,), r.width),
            r == (ScaleBorder { width: r.width, ..self }),
    {
        let mut s = self;
        s.width = value.into();
        s
    }

    /// The field `z`, to read or to change in place.
    pub fn get_z(&mut self) -> (r: &mut NumberString)
        ensures
            *r == old(self).z,
            *final(self) == (ScaleBorder { z: *final(r), ..*old(self) }),
    {
        &mut self.z
    }

    /// Sets `z`.
    pub fn z<V: Into<NumberString>>(self, value: V) -> (r: ScaleBorder)
        ensures
            call_ensures(<V as Into<NumberString>>::into, (value,), r.z),
            r == (ScaleBorder { z: r.z, ..self }),
    {
        let mut s = self;
        s.z = value.into();
        s
    }

    /// Whether a wire value reads as a value of this kind: an object whose
    /// members, where they are there, read as the fields.
    pub open spec fn readable_form(v: JsView) -> bool {
        &&& v is Object
        &&& defaulted_readable::<String>(v, "color"@)
        &&& defaulted_readable::<Vec<NumberString>>(v, "dash"@)
        &&& defaulted_readable::<NumberString>(v, "dashOffset"@)
        &&& optional_readable::<bool>(v, "display"@)
        &&& defaulted_readable::<NumberString>(v, "width"@)
        &&& defaulted_readable::<NumberString>(v, "z"@)
    }

    /// Whether this value is what a wire value reads as: each field is what
    /// its member reads as, or its default where the member is missing or
    /// the field is never read.
    pub open spec fn reads_form(&self, v: JsView) -> bool {
        &&& defaulted_reads(self.color, v, "color"@)
        &&& defaulted_reads(self.dash, v, "dash"@)
        &&& defaulted_reads(self.dashOffset, v, "dashOffset"@)
        &&& optional_reads(self.display, v, "display"@)
        &&& defaulted_reads(self.width, v, "width"@)
        &&& defaulted_reads(self.z, v, "z"@)
    }

    /// Reads the value off the wire.
    pub fn from_value(v: &JsValue) -> (r: Result<Self, DecodeError>)
        ensures
            match r {
                Ok(x) => Self::readable_form(v@) && x.reads_form(v@),
                Err(_) => !Self::readable_form(v@),
            },
    {
        match v {
            JsValue::Object(_) => {},
            _ => {
                return Err(DecodeError::Shape);
            },
        }
        let color = match read_defaulted::<String>(v, "color") {
            Ok(x) => x,
            Err(e) => {
                return Err(e);
            },
        };
        let dash = match read_defaulted::<Vec<NumberString>>(v, "dash") {
            Ok(x) => x,
            Err(e) => {
                return Err(e);
            },
        };
        let dashOffset = match read_defaulted::<NumberString>(v, "dashOffset") {
            Ok(x) => x,
            Err(e) => {
                return Err(e);
            },
        };
        let display = match read_optional::<bool>(v, "display") {
            Ok(x) => x,
            Err(e) => {
                return Err(e);
            },
        };
        let width = match read_defaulted::<NumberString>(v, "width") {
            Ok(x) => x,
            Err(e) => {
                return Err(e);
            },
        };
        let z = match read_defaulted::<NumberString>(v, "z") {
            Ok(x) => x,
            Err(e) => {
                return Err(e);
            },
        };
        Ok(ScaleBorder { color, dash, dashOffset, display, width, z })
    }

    /// Writes the value to the wire.
    pub fn to_value(&self) -> (r: JsValue)
        ensures
            r@ == self.wire_form(),
    {
        let mut members: Vec<(String, JsValue)> = Vec::new();
        assert(members_view(members@) =~= Seq::empty());
        put_scalar(&mut members, "color", &self.color);
        put_list(&mut members, "dash", &self.dash);
        put_scalar(&mut members, "dashOffset", &self.dashOffset);
        put_option(&mut members, "display", &self.display);
        put_scalar(&mut members, "width", &self.width);
        put_scalar(&mut members, "z", &self.z);
        finish(members)
    }
}

impl Default for ScaleBorder {
    fn default() -> (r: Self)
        ensures
            r.is_new(),
    {
        ScaleBorder::new()
    }
}

impl Serialize for ScaleBorder {
    open spec fn wire(&self) -> JsView {
        self.wire_form()
    }

    fn serialize(&self) -> (r: JsValue)
        ensures
            r@ == self.wire(),
    {
        self.to_value()
    }
}

impl Deserialize for ScaleBorder {
    open spec fn readable(v: JsView) -> bool {
        Self::readable_form(v)
    }

    open spec fn reads(&self, v: JsView) -> bool {
        self.reads_form(v)
    }

    fn deserialize(v: &JsValue) -> (r: Result<Self, DecodeError>)
        ensures
            match r {
                Ok(x) => Self::readable(v@) && x.reads(v@),
                Err(_) => !Self::readable(v@),
            },
    {
        ScaleBorder::from_value(v)
    }
}

/// The grid lines of an axis.
#[derive(Debug, Clone, PartialEq, Eq)]
pub struct Grid {
    pub color: String,
    pub display: Option<bool>,
    pub drawOnChartArea: Option<bool>,
    pub tickColor: String,
    pub z: NumberString,
}

impl Grid {
    /// Whether every field is as `new` leaves it: nothing is set.
    pub open spec fn is_new(&self) -> bool {
        &&& self.color@.len() == 0
        &&& self.display is None
        &&& self.drawOnChartArea is None
        &&& self.tickColor@.len() == 0
        &&& self.z@.len() == 0
    }

    /// The wire form: an object with one member for each field that is
    /// set, in the order of the fields.
    pub open spec fn wire_form(&self) -> JsView {
        JsView::Object(
            Seq::empty()
                + scalar_entry("color"@, self.color)
                + option_entry("display"@, self.display)
                + option_entry("drawOnChartArea"@, self.drawOnChartArea)
                + scalar_entry("tickColor"@, self.tickColor)
                + scalar_entry("z"@, self.z)
        )
    }

    /// The value with nothing set.
    pub fn new() -> (r: Self)
        ensures
            r.is_new(),
    {
        Grid {
            color: String::new(),
            display: None,
            drawOnChartArea: None,
            tickColor: String::new(),
            z: NumberString::default(),
        }
    }

    /// The field `color`, to read or to change in place.
    pub fn get_color(&mut self) -> (r: &mut String)
        ensures
            *r == old(self).color,
            *final(self) == (Grid { color: *final(r), ..*old(self) }),
    {
        &mut self.color
    }

    /// Sets `color`.
    pub fn color<V: Into<String>>(self, value: V) -> (r: Grid)
        ensures
            call_ensures(<V as Into<String>>::into, (value,), r.color),
            r == (Grid { color: r.color, ..self }),
    {
        let mut s = self;
        s.color = value.into();
        s
    }

    /// The field `display`, to read or to change in place.
    pub fn get_display(&mut self) -> (r: &mut Option<bool>)
        ensures
            *r == old(self).display,
            *final(self) == (Grid { display: *final(r), ..*old(self) }),
    {
        &mut self.display
    }

    /// Sets `display`.
    pub fn display<V: Into<bool>>(self, value: V) -> (r: Grid)
        ensures
            r.display matches Some(x) && call_ensures(<V as Into<bool>>::into, (value,), x),
            r == (Grid { display: r.display, ..self }),
    {
        let mut s = self;
        s.display = Some(value.into());
        s
    }

    /// The field `drawOnChartArea`, to read or to change in place.
    pub fn get_draw_on_chart_area(&mut self) -> (r: &mut Option<bool>)
        ensures
            *r == old(self).drawOnChartArea,
            *final(self) == (Grid { drawOnChartArea: *final(r), ..*old(self) }),
    {
        &mut self.drawOnChartArea
    }

    /// Sets `drawOnChartArea`.
    pub fn draw_on_chart_area<V: Into<bool>>(self, value: V) -> (r: Grid)
        ensures
            r.drawOnChartArea matches Some(x) && call_ensures(<V as Into<bool>>::into, (value,), x),
            r == (Grid { drawOnChartArea: r.drawOnChartArea, ..self }),
    {
        let mut s = self;
        s.drawOnChartArea = Some(value.into());
        s
    }

    /// The field `tickColor`, to read or to change in place.
    pub fn get_tick_color(&mut self) -> (r: &mut String)
        ensures
            *r == old(self).tickColor,
            *final(self) == (Grid { tickColor: *final(r), ..*old(self) }),
    {
        &mut self.tickColor
    }

    /// Sets `tickColor`.
    pub fn tick_color<V: Into<String>>(self, value: V) -> (r: Grid)
        ensures
            call_ensures(<V as Into<String>>::into, (value,), r.tickColor),
            r == (Grid { tickColor: r.tickColor, ..self }),
    {
        let mut s = self;
        s.tickColor = value.into();
        s
    }

    /// The field `z`, to read or to change in place.
    pub fn get_z(&mut self) -> (r: &mut NumberString)
        ensures
            *r == old(self).z,
            *final(self) == (Grid { z: *final(r), ..*old(self) }),
    {
        &mut self.z
    }

    /// Sets `z`.
    pub fn z<V: Into<NumberString>>(self, value: V) -> (r: Grid)
        ensures
            call_ensures(<V as Into<NumberString>>::into, (value,), r.z),
            r == (Grid { z: r.z, ..self }),
    {
        let mut s = self;
        s.z = value.into();
        s
    }

    /// Whether a wire value reads as a value of this kind: an object whose
    /// members, where they are there, read as the fields.
    pub open spec fn readable_form(v: JsView) -> bool {
        &&& v is Object
        &&& defaulted_readable::<String>(v, "color"@)
        &&& optional_readable::<bool>(v, "display"@)
        &&& optional_readable::<bool>(v, "drawOnChartArea"@)
        &&& defaulted_readable::<NumberString>(v, "z"@)
    }

    /// Whether this value is what a wire value reads as: each field is what
    /// its member reads as, or its default where the member is missing or
    /// the field is never read.
    pub open spec fn reads_form(&self, v: JsView) -> bool {
        &&& defaulted_reads(self.color, v, "color"@)
        &&& optional_reads(self.display, v, "display"@)
        &&& optional_reads(self.drawOnChartArea, v, "drawOnChartArea"@)
        &&& skipped_reads(self.tickColor)
        &&& defaulted_reads(self.z, v, "z"@)
    }

    /// Reads the value off the wire.
    pub fn from_value(v: &JsValue) -> (r: Result<Self, DecodeError>)
        ensures
            match r {
                Ok(x) => Self::readable_form(v@) && x.reads_form(v@),
                Err(_) => !Self::readable_form(v@),
            },
    {
        match v {
            JsValue::Object(_) => {},
            _ => {
                return Err(DecodeError::Shape);
            },
        }
        let color = match read_defaulted::<String>(v, "color") {
            Ok(x) => x,
            Err(e) => {
                return Err(e);
            },
        };
        let display = match read_optional::<bool>(v, "display") {
            Ok(x) => x,
            Err(e) => {
                return Err(e);
            },
        };
        let drawOnChartArea = match read_optional::<bool>(v, "drawOnChartArea") {
            Ok(x) => x,
            Err(e) => {
                return Err(e);
            },
        };
        let tickColor = read_skipped::<String>();
        let z = match read_defaulted::<NumberString>(v, "z") {
            Ok(x) => x,
            Err(e) => {
                return Err(e);
            },
        };
        Ok(Grid { color, display, drawOnChartArea, tickColor, z })
    }

    /// Writes the value to the wire.
    pub fn to_value(&self) -> (r: JsValue)
        ensures
            r@ == self.wire_form(),
    {
        let mut members: Vec<(String, JsValue)> = Vec::new();
        assert(members_view(members@) =~= Seq::empty());
        put_scalar(&mut members, "color", &self.color);
        put_option(&mut members, "display", &self.display);
        put_option(&mut members, "drawOnChartArea", &self.drawOnChartArea);
        put_scalar(&mut members, "tickColor", &self.tickColor);
        put_scalar(&mut members, "z", &self.z);
        finish(members)
    }
}

impl Default for Grid {
    fn default() -> (r: Self)
        ensures
            r.is_new(),
    {
        Grid::new()
    }
}

impl Serialize for Grid {
    open spec fn wire(&self) -> JsView {
        self.wire_form()
    }

    fn serialize(&self) -> (r: JsValue)
        ensures
            r@ == self.wire(),
    {
        self.to_value()
    }
}

impl Deserialize for Grid {
    open spec fn readable(v: JsView) -> bool {
        Self::readable_form(v)
    }

    open spec fn reads(&self, v: JsView) -> bool {
        self.reads_form(v)
    }

    fn deserialize(v: &JsValue) -> (r: Result<Self, DecodeError>)
        ensures
            match r {
                Ok(x) => Self::readable(v@) && x.reads(v@),
                Err(_) => !Self::readable(v@),
            },
    {
        Grid::from_value(v)
    }
}

/// The formats in which an axis of time writes each unit.
#[derive(Debug, Clone, PartialEq, Eq)]
pub struct DisplayFormats {
    pub day: String,
    pub hour: String,
    pub minute: String,
    pub month: String,
    pub quarter: String,
    pub week: String,
    pub year: String,
}

impl DisplayFormats {
    /// Whether every field is as `new` leaves it: nothing is set.
    pub open spec fn is_new(&self) -> bool {
        &&& self.day@.len() == 0
        &&& self.hour@.len() == 0
        &&& self.minute@.len() == 0
        &&& self.month@.len() == 0
        &&& self.quarter@.len() == 0
        &&& self.week@.len() == 0
        &&& self.year@.len() == 0
    }

    /// The wire form: an object with one member for each field that is
    /// set, in the order of the fields.
    pub open spec fn wire_form(&self) -> JsView {
        JsView::Object(
            Seq::empty()
                + scalar_entry("day"@, self.day)
                + scalar_entry("hour"@, self.hour)
                + scalar_entry("minute"@, self.minute)
                + scalar_entry("month"@, self.month)
                + scalar_entry("quarter"@, self.quarter)
                + scalar_entry("week"@, self.week)
                + scalar_entry("year"@, self.year)
        )
    }

    /// The value with nothing set.
    pub fn new() -> (r: Self)
        ensures
            r.is_new(),
    {
        DisplayFormats {
            day: String::new(),
            hour: String::new(),
            minute: String::new(),
            month: String::new(),
            quarter: String::new(),
            week: String::new(),
            year: String::new(),
        }
    }

    /// The field `day`, to read or to change in place.
    pub fn get_day(&mut self) -> (r: &mut String)
        ensures
            *r == old(self).day,
            *final(self) == (DisplayFormats { day: *final(r), ..*old(self) }),
    {
        &mut self.day
    }

    /// Sets `day`.
    pub fn day<V: Into<String>>(self, value: V) -> (r: DisplayFormats)
        ensures
            call_ensures(<V as Into<String>>::into, (value,), r.day),
            r == (DisplayFormats { day: r.day, ..self }),
    {
        let mut s = self;
        s.day = value.into();
        s
    }

    /// The field `hour`, to read or to change in place.
    pub fn get_hour(&mut self) -> (r: &mut String)
        ensures
            *r == old(self).hour,
            *final(self) == (DisplayFormats { hour: *final(r), ..*old(self) }),
    {
        &mut self.hour
    }

    /// Sets `hour`.
    pub fn hour<V: Into<String>>(self, value: V) -> (r: DisplayFormats)
        ensures
            call_ensures(<V as Into<String>>::into, (value,), r.hour),
            r == (DisplayFormats { hour: r.hour, ..self }),
    {
        let mut s = self;
        s.hour = value.into();
        s
    }

    /// The field `minute`, to read or to change in place.
    pub fn get_minute(&mut self) -> (r: &mut String)
        ensures
            *r == old(self).minute,
            *final(self) == (DisplayFormats { minute: *final(r), ..*old(self) }),
    {
        &mut self.minute
    }

    /// Sets `minute`.
    pub fn minute<V: Into<String>>(self, value: V) -> (r: DisplayFormats)
        ensures
            call_ensures(<V as Into<String>>::into, (value,), r.minute),
            r == (DisplayFormats { minute: r.minute, ..self }),
    {
        let mut s = self;
        s.minute = value.into();
        s
    }

    /// The field `month`, to read or to change in place.
    pub fn get_month(&mut self) -> (r: &mut String)
        ensures
            *r == old(self).month,
            *final(self) == (DisplayFormats { month: *final(r), ..*old(self) }),
    {
        &mut self.month
    }

    /// Sets `month`.
    pub fn month<V: Into<String>>(self, value: V) -> (r: DisplayFormats)
        ensures
            call_ensures(<V as Into<String>>::into, (value,), r.month),
            r == (DisplayFormats { month: r.month, ..self }),
    {
        let mut s = self;
        s.month = value.into();
        s
    }

    /// The field `quarter`, to read or to change in place.
    pub fn get_quarter(&mut self) -> (r: &mut String)
        ensures
            *r == old(self).quarter,
            *final(self) == (DisplayFormats { quarter: *final(r), ..*old(self) }),
    {
        &mut self.quarter
    }

    /// Sets `quarter`.
    pub fn quarter<V: Into<String>>(self, value: V) -> (r: DisplayFormats)
        ensures
            call_ensures(<V as Into<String>>::into, (value,), r.quarter),
            r == (DisplayFormats { quarter: r.quarter, ..self }),
    {
        let mut s = self;
        s.quarter = value.into();
        s
    }

    /// The field `week`, to read or to change in place.
    pub fn get_week(&mut self) -> (r: &mut String)
        ensures
            *r == old(self).week,
            *final(self) == (DisplayFormats { week: *final(r), ..*old(self) }),
    {
        &mut self.week
    }

    /// Sets `week`.
    pub fn week<V: Into<String>>(self, value: V) -> (r: DisplayFormats)
        ensures
            call_ensures(<V as Into<String>>::into, (value,), r.week),
            r == (DisplayFormats { week: r.week, ..self }),
    {
        let mut s = self;
        s.week = value.into();
        s
    }

    /// The field `year`, to read or to change in place.
    pub fn get_year(&mut self) -> (r: &mut String)
        ensures
            *r == old(self).year,
            *final(self) == (DisplayFormats { year: *final(r), ..*old(self) }),
    {
        &mut self.year
    }

    /// Sets `year`.
    pub fn year<V: Into<String>>(self, value: V) -> (r: DisplayFormats)
        ensures
            call_ensures(<V as Into<String>>::into, (value,), r.year),
            r == (DisplayFormats { year: r.year, ..self }),
    {
        let mut s = self;
        s.year = value.into();
        s
    }

    /// Whether a wire value reads as a value of this kind: an object whose
    /// members, where they are there, read as the fields.
    pub open spec fn readable_form(v: JsView) -> bool {
        &&& v is Object
        &&& defaulted_readable::<String>(v, "day"@)
        &&& defaulted_readable::<String>(v, "hour"@)
        &&& defaulted_readable::<String>(v, "minute"@)
        &&& defaulted_readable::<String>(v, "month"@)
        &&& defaulted_readable::<String>(v, "quarter"@)
        &&& defaulted_readable::<String>(v, "week"@)
        &&& defaulted_readable::<String>(v, "year"@)
    }

    /// Whether this value is what a wire value reads as: each field is what
    /// its member reads as, or its default where the member is missing or
    /// the field is never read.
    pub open spec fn reads_form(&self, v: JsView) -> bool {
        &&& defaulted_reads(self.day, v, "day"@)
        &&& defaulted_reads(self.hour, v, "hour"@)
        &&& defaulted_reads(self.minute, v, "minute"@)
        &&& defaulted_reads(self.month, v, "month"@)
        &&& defaulted_reads(self.quarter, v, "quarter"@)
        &&& defaulted_reads(self.week, v, "week"@)
        &&& defaulted_reads(self.year, v, "year"@)
    }

    /// Reads the value off the wire.
    pub fn from_value(v: &JsValue) -> (r: Result<Self, DecodeError>)
        ensures
            match r {
                Ok(x) => Self::readable_form(v@) && x.reads_form(v@),
                Err(_) => !Self::readable_form(v@),
            },
    {
        match v {
            JsValue::Object(_) => {},
            _ => {
                return Err(DecodeError::Shape);
            },
        }
        let day = match read_defaulted::<String>(v, "day") {
            Ok(x) => x,
            Err(e) => {
                return Err(e);
            },
        };
        let hour = match read_defaulted::<String>(v, "hour") {
            Ok(x) => x,
            Err(e) => {
                return Err(e);
            },
        };
        let minute = match read_defaulted::<String>(v, "minute") {
            Ok(x) => x,
            Err(e) => {
                return Err(e);
            },
        };
        let month = match read_defaulted::<String>(v, "month") {
            Ok(x) => x,
            Err(e) => {
                return Err(e);
            },
        };
        let quarter = match read_defaulted::<String>(v, "quarter") {
            Ok(x) => x,
            Err(e) => {
                return Err(e);
            },
        };
        let week = match read_defaulted::<String>(v, "week") {
            Ok(x) => x,
            Err(e) => {
                return Err(e);
            },
        };
        let year = match read_defaulted::<String>(v, "year") {
            Ok(x) => x,
            Err(e) => {
                return Err(e);
            },
        };
        Ok(DisplayFormats { day, hour, minute, month, quarter, week, year })
    }

    /// Writes the value to the wire.
    pub fn to_value(&self) -> (r: JsValue)
        ensures
            r@ == self.wire_form(),
    {
        let mut members: Vec<(String, JsValue)> = Vec::new();
        assert(members_view(members@) =~= Seq::empty());
        put_scalar(&mut members, "day", &self.day);
        put_scalar(&mut members, "hour", &self.hour);
        put_scalar(&mut members, "minute", &self.minute);
        put_scalar(&mut members, "month", &self.month);
        put_scalar(&mut members, "quarter", &self.quarter);
        put_scalar(&mut members, "week", &self.week);
        put_scalar(&mut members, "year", &self.year);
        finish(members)
    }
}

impl Default for DisplayFormats {
    fn default() -> (r: Self)
        ensures
            r.is_new(),
    {
        DisplayFormats::new()
    }
}

impl Serialize for DisplayFormats {
    open spec fn wire(&self) -> JsView {
        self.wire_form()
    }

    fn serialize(&self) -> (r: JsValue)
        ensures
            r@ == self.wire(),
    {
        self.to_value()
    }
}

impl Deserialize for DisplayFormats {
    open spec fn readable(v: JsView) -> bool {
        Self::readable_form(v)
    }

    open spec fn reads(&self, v: JsView) -> bool {
        self.reads_form(v)
    }

    fn deserialize(v: &JsValue) -> (r: Result<Self, DecodeError>)
        ensures
            match r {
                Ok(x) => Self::readable(v@) && x.reads(v@),
                Err(_) => !Self::readable(v@),
            },
    {
        DisplayFormats::from_value(v)
    }
}

/// How an axis of time is divided and labelled.
#[derive(Debug, Clone, PartialEq, Eq)]
pub struct ScaleTime {
    pub displayFormats: Option<DisplayFormats>,
    pub unit: String,
}

impl ScaleTime {
    /// Whether every field is as `new` leaves it: nothing is set.
    pub open spec fn is_new(&self) -> bool {
        &&& self.displayFormats is None
        &&& self.unit@.len() == 0
    }

    /// The wire form: an object with one member for each field that is
    /// set, in the order of the fields.
    pub open spec fn wire_form(&self) -> JsView {
        JsView::Object(
            Seq::empty()
                + option_entry("displayFormats"@, self.displayFormats)
                + scalar_entry("unit"@, self.unit)
        )
    }

    /// The value with nothing set.
    pub fn new() -> (r: Self)
        ensures
            r.is_new(),
    {
        ScaleTime {
            displayFormats: None,
            unit: String::new(),
        }
    }

    /// The field `displayFormats`, to read or to change in place.
    pub fn get_display_formats(&mut self) -> (r: &mut Option<DisplayFormats>)
        ensures
            *r == old(self).displayFormats,
            *final(self) == (ScaleTime { displayFormats: *final(r), ..*old(self) }),
    {
        &mut self.displayFormats
    }

    /// Sets `displayFormats`.
    pub fn display_formats<V: Into<DisplayFormats>>(self, value: V) -> (r: ScaleTime)
        ensures
            r.displayFormats matches Some(x) && call_ensures(<V as Into<DisplayFormats>>::into, (value,), x),
            r == (ScaleTime { displayFormats: r.displayFormats, ..self }),
    {
        let mut s = self;
        s.displayFormats = Some(value.into());
        s
    }

    /// The field `unit`, to read or to change in place.
    pub fn get_unit(&mut self) -> (r: &mut String)
        ensures
            *r == old(self).unit,
            *final(self) == (ScaleTime { unit: *final(r), ..*old(self) }),
    {
        &mut self.unit
    }

    /// Sets `unit`.
    pub fn unit<V: Into<String>>(self, value: V) -> (r: ScaleTime)
        ensures
            call_ensures(<V as Into<String>>::into, (value,), r.unit),
            r == (ScaleTime { unit: r.unit, ..self }),
    {
        let mut s = self;
        s.unit = value.into();
        s
    }

    /// Whether a wire value reads as a value of this kind: an object whose
    /// members, where they are there, read as the fields.
    pub open spec fn readable_form(v: JsView) -> bool {
        &&& v is Object
        &&& optional_readable::<DisplayFormats>(v, "displayFormats"@)
        &&& defaulted_readable::<String>(v, "unit"@)
    }

    /// Whether this value is what a wire value reads as: each field is what
    /// its member reads as, or its default where the member is missing or
    /// the field is never read.
    pub open spec fn reads_form(&self, v: JsView) -> bool {
        &&& optional_reads(self.displayFormats, v, "displayFormats"@)
        &&& defaulted_reads(self.unit, v, "unit"@)
    }

    /// Reads the value off the wire.
    pub fn from_value(v: &JsValue) -> (r: Result<Self, DecodeError>)
        ensures
            match r {
                Ok(x) => Self::readable_form(v@) && x.reads_form(v@),
                Err(_) => !Self::readable_form(v@),
            },
    {
        match v {
            JsValue::Object(_) => {},
            _ => {
                return Err(DecodeError::Shape);
            },
        }
        let displayFormats = match read_optional::<DisplayFormats>(v, "displayFormats") {
            Ok(x) => x,
            Err(e) => {
                return Err(e);
            },
        };
        let unit = match read_defaulted::<String>(v, "unit") {
            Ok(x) => x,
            Err(e) => {
                return Err(e);
            },
        };
        Ok(ScaleTime { displayFormats, unit })
    }

    /// Writes the value to the wire.
    pub fn to_value(&self) -> (r: JsValue)
        ensures
            r@ == self.wire_form(),
    {
        let mut members: Vec<(String, JsValue)> = Vec::new();
        assert(members_view(members@) =~= Seq::empty());
        put_option(&mut members, "displayFormats", &self.displayFormats);
        put_scalar(&mut members, "unit", &self.unit);
        finish(members)
    }
}

impl Default for ScaleTime {
    fn default() -> (r: Self)
        ensures
            r.is_new(),
    {
        ScaleTime::new()
    }
}

impl Serialize for ScaleTime {
    open spec fn wire(&self) -> JsView {
        self.wire_form()
    }

    fn serialize(&self) -> (r: JsValue)
        ensures
            r@ == self.wire(),
    {
        self.to_value()
    }
}

impl Deserialize for ScaleTime {
    open spec fn readable(v: JsView) -> bool {
        Self::readable_form(v)
    }

    open spec fn reads(&self, v: JsView) -> bool {
        self.reads_form(v)
    }

    fn deserialize(v: &JsValue) -> (r: Result<Self, DecodeError>)
        ensures
            match r {
                Ok(x) => Self::readable(v@) && x.reads(v@),
                Err(_) => !Self::readable(v@),
            },
    {
        ScaleTime::from_value(v)
    }
}

/// The ticks of an axis.
#[derive(Debug, Clone, PartialEq, Eq)]
pub struct ScaleTicks {
    pub autoSkip: Option<bool>,
    pub align: String,
    pub callback: FnWithArgs<3>,
    pub count: NumberString,
    pub font: Option<Font>,
    pub includeBounds: Option<bool>,
    pub maxTicksLimit: NumberString,
    pub padding: Option<Padding>,
    pub precision: NumberString,
    pub stepSize: NumberString,
}

impl ScaleTicks {
    /// Whether every field is as `new` leaves it: nothing is set.
    pub open spec fn is_new(&self) -> bool {
        &&& self.autoSkip is None
        &&& self.align@.len() == 0
        &&& self.callback@ == fresh(3)
        &&& self.count@.len() == 0
        &&& self.font is None
        &&& self.includeBounds is None
        &&& self.maxTicksLimit@.len() == 0
        &&& self.padding is None
        &&& self.precision@.len() == 0
        &&& self.stepSize@.len() == 0
    }

    /// The wire form: an object with one member for each field that is
    /// set, in the order of the fields.
    pub open spec fn wire_form(&self) -> JsView {
        JsView::Object(
            Seq::empty()
                + option_entry("autoSkip"@, self.autoSkip)
                + scalar_entry("align"@, self.align)
                + scalar_entry("callback"@, self.callback)
                + scalar_entry("count"@, self.count)
                + option_entry("font"@, self.font)
                + option_entry("includeBounds"@, self.includeBounds)
                + scalar_entry("maxTicksLimit"@, self.maxTicksLimit)
                + option_entry("padding"@, self.padding)
                + scalar_entry("precision"@, self.precision)
                + scalar_entry("stepSize"@, self.stepSize)
        )
    }

    /// The value with nothing set.
    pub fn new() -> (r: Self)
        ensures
            r.is_new(),
    {
        ScaleTicks {
            autoSkip: None,
            align: String::new(),
            callback: FnWithArgs::new(),
            count: NumberString::default(),
            font: None,
            includeBounds: None,
            maxTicksLimit: NumberString::default(),
            padding: None,
            precision: NumberString::default(),
            stepSize: NumberString::default(),
        }
    }

    /// The field `autoSkip`, to read or to change in place.
    pub fn get_auto_skip(&mut self) -> (r: &mut Option<bool>)
        ensures
            *r == old(self).autoSkip,
            *final(self) == (ScaleTicks { autoSkip: *final(r), ..*old(self) }),
    {
        &mut self.autoSkip
    }

    /// Sets `autoSkip`.
    pub fn auto_skip<V: Into<bool>>(self, value: V) -> (r: ScaleTicks)
        ensures
            r.autoSkip matches Some(x) && call_ensures(<V as Into<bool>>::into, (value,), x),
            r == (ScaleTicks { autoSkip: r.autoSkip, ..self }),
    {
        let mut s = self;
        s.autoSkip = Some(value.into());
        s
    }

    /// The field `align`, to read or to change in place.
    pub fn get_align(&mut self) -> (r: &mut String)
        ensures
            *r == old(self).align,
            *final(self) == (ScaleTicks { align: *final(r), ..*old(self) }),
    {
        &mut self.align
    }

    /// Sets `align`.
    pub fn align<V: Into<String>>(self, value: V) -> (r: ScaleTicks)
        ensures
            call_ensures(<V as Into<String>>::into, (value,), r.align),
            r == (ScaleTicks { align: r.align, ..self }),
    {
        let mut s = self;
        s.align = value.into();
        s
    }

    /// The field `callback`, to read or to change in place.
    pub fn get_callback(&mut self) -> (r: &mut FnWithArgs<3>)
        ensures
            *r == old(self).callback,
            *final(self) == (ScaleTicks { callback: *final(r), ..*old(self) }),
    {
        &mut self.callback
    }

    /// Sets `callback`.
    pub fn callback<V: Into<FnWithArgs<3>>>(self, value: V) -> (r: ScaleTicks)
        ensures
            call_ensures(<V as Into<FnWithArgs<3>>>::into, (value,), r.callback),
            r == (ScaleTicks { callback: r.callback, ..self }),
    {
        let mut s = self;
        s.callback = value.into();
        s
    }

    /// The field `count`, to read or to change in place.
    pub fn get_count(&mut self) -> (r: &mut NumberString)
        ensures
            *r == old(self).count,
            *final(self) == (ScaleTicks { count: *final(r), ..*old(self) }),
    {
        &mut self.count
    }

    /// Sets `count`.
    pub fn count<V: Into<NumberString>>(self, value: V) -> (r: ScaleTicks)
        ensures
            call_ensures(<V as Into<NumberString>>::into, (value,), r.count),
            r == (ScaleTicks { count: r.count, ..self }),
    {
        let mut s = self;
        s.count = value.into();
        s
    }

    /// The field `font`, to read or to change in place.
    pub fn get_font(&mut self) -> (r: &mut Option<Font>)
        ensures
            *r == old(self).font,
            *final(self) == (ScaleTicks { font: *final(r), ..*old(self) }),
    {
        &mut self.font
    }

    /// Sets `font`.
    pub fn font<V: Into<Font>>(self, value: V) -> (r: ScaleTicks)
        ensures
            r.font matches Some(x) && call_ensures(<V as Into<Font>>::into, (value,), x),
            r == (ScaleTicks { font: r.font, ..self }),
    {
        let mut s = self;
        s.font = Some(value.into());
        s
    }

    /// The field `includeBounds`, to read or to change in place.
    pub fn get_include_bounds(&mut self) -> (r: &mut Option<bool>)
        ensures
            *r == old(self).includeBounds,
            *final(self) == (ScaleTicks { includeBounds: *final(r), ..*old(self) }),
    {
        &mut self.includeBounds
    }

    /// Sets `includeBounds`.
    pub fn include_bounds<V: Into<bool>>(self, value: V) -> (r: ScaleTicks)
        ensures
            r.includeBounds matches Some(x) && call_ensures(<V as Into<bool>>::into, (value,), x),
            r == (ScaleTicks { includeBounds: r.includeBounds, ..self }),
    {
        let mut s = self;
        s.includeBounds = Some(value.into());
        s
    }

    /// The field `maxTicksLimit`, to read or to change in place.
    pub fn get_max_ticks_limit(&mut self) -> (r: &mut NumberString)
        ensures
            *r == old(self).maxTicksLimit,
            *final(self) == (ScaleTicks { maxTicksLimit: *final(r), ..*old(self) }),
    {
        &mut self.maxTicksLimit
    }

    /// Sets `maxTicksLimit`.
    pub fn max_ticks_limit<V: Into<NumberString>>(self, value: V) -> (r: ScaleTicks)
        ensures
            call_ensures(<V as Into<NumberString>>::into, (value,), r.maxTicksLimit),
            r == (ScaleTicks { maxTicksLimit: r.maxTicksLimit, ..self }),
    {
        let mut s = self;
        s.maxTicksLimit = value.into();
        s
    }

    /// The field `padding`, to read or to change in place.
    pub fn get_padding(&mut self) -> (r: &mut Option<Padding>)
        ensures
            *r == old(self).padding,
            *final(self) == (ScaleTicks { padding: *final(r), ..*old(self) }),
    {
        &mut self.padding
    }

    /// Sets `padding`.
    pub fn padding<V: Into<Padding>>(self, value: V) -> (r: ScaleTicks)
        ensures
            r.padding matches Some(x) && call_ensures(<V as Into<Padding>>::into, (value,), x),
            r == (ScaleTicks { padding: r.padding, ..self }),
    {
        let mut s = self;
        s.padding = Some(value.into());
        s
    }

    /// The field `precision`, to read or to change in place.
    pub fn get_precision(&mut self) -> (r: &mut NumberString)
        ensures
            *r == old(self).precision,
            *final(self) == (ScaleTicks { precision: *final(r), ..*old(self) }),
    {
        &mut self.precision
    }

    /// Sets `precision`.
    pub fn precision<V: Into<NumberString>>(self, value: V) -> (r: ScaleTicks)
        ensures
            call_ensures(<V as Into<NumberString>>::into, (value,), r.precision),
            r == (ScaleTicks { precision: r.precision, ..self }),
    {
        let mut s = self;
        s.precision = value.into();
        s
    }

    /// The field `stepSize`, to read or to change in place.
    pub fn get_step_size(&mut self) -> (r: &mut NumberString)
        ensures
            *r == old(self).stepSize,
            *final(self) == (ScaleTicks { stepSize: *final(r), ..*old(self) }),
    {
        &mut self.stepSize
    }

    /// Sets `stepSize`.
    pub fn step_size<V: Into<NumberString>>(self, value: V) -> (r: ScaleTicks)
        ensures
            call_ensures(<V as Into<NumberString>>::into, (value,), r.stepSize),
            r == (ScaleTicks { stepSize: r.stepSize, ..self }),
    {
        let mut s = self;
        s.stepSize = value.into();
        s
    }

    /// Whether a wire value reads as a value of this kind: an object whose
    /// members, where they are there, read as the fields.
    pub open spec fn readable_form(v: JsView) -> bool {
        &&& v is Object
        &&& optional_readable::<bool>(v, "autoSkip"@)
        &&& defaulted_readable::<String>(v, "align"@)
        &&& defaulted_readable::<NumberString>(v, "count"@)
        &&& optional_readable::<Font>(v, "font"@)
        &&& optional_readable::<bool>(v, "includeBounds"@)
        &&& defaulted_readable::<NumberString>(v, "maxTicksLimit"@)
        &&& defaulted_readable::<NumberString>(v, "precision"@)
        &&& defaulted_readable::<NumberString>(v, "stepSize"@)
    }

    /// Whether this value is what a wire value reads as: each field is what
    /// its member reads as, or its default where the member is missing or
    /// the field is never read.
    pub open spec fn reads_form(&self, v: JsView) -> bool {
        &&& optional_reads(self.autoSkip, v, "autoSkip"@)
        &&& defaulted_reads(self.align, v, "align"@)
        &&& skipped_reads(self.callback)
        &&& defaulted_reads(self.count, v, "count"@)
        &&& optional_reads(self.font, v, "font"@)
        &&& optional_reads(self.includeBounds, v, "includeBounds"@)
        &&& defaulted_reads(self.maxTicksLimit, v, "maxTicksLimit"@)
        &&& skipped_reads(self.padding)
        &&& defaulted_reads(self.precision, v, "precision"@)
        &&& defaulted_reads(self.stepSize, v, "stepSize"@)
    }

    /// Reads the value off the wire.
    pub fn from_value(v: &JsValue) -> (r: Result<Self, DecodeError>)
        ensures
            match r {
                Ok(x) => Self::readable_form(v@) && x.reads_form(v@),
                Err(_) => !Self::readable_form(v@),
            },
    {
        match v {
            JsValue::Object(_) => {},
            _ => {
                return Err(DecodeError::Shape);
            },
        }
        let autoSkip = match read_optional::<bool>(v, "autoSkip") {
            Ok(x) => x,
            Err(e) => {
                return Err(e);
            },
        };
        let align = match read_defaulted::<String>(v, "align") {
            Ok(x) => x,
            Err(e) => {
                return Err(e);
            },
        };
        let callback = read_skipped::<FnWithArgs<3>>();
        let count = match read_defaulted::<NumberString>(v, "count") {
            Ok(x) => x,
            Err(e) => {
                return Err(e);
            },
        };
        let font = match read_optional::<Font>(v, "font") {
            Ok(x) => x,
            Err(e) => {
                return Err(e);
            },
        };
        let includeBounds = match read_optional::<bool>(v, "includeBounds") {
            Ok(x) => x,
            Err(e) => {
                return Err(e);
            },
        };
        let maxTicksLimit = match read_defaulted::<NumberString>(v, "maxTicksLimit") {
            Ok(x) => x,
            Err(e) => {
                return Err(e);
            },
        };
        let padding = read_skipped::<Option<Padding>>();
        let precision = match read_defaulted::<NumberString>(v, "precision") {
            Ok(x) => x,
            Err(e) => {
                return Err(e);
            },
        };
        let stepSize = match read_defaulted::<NumberString>(v, "stepSize") {
            Ok(x) => x,
            Err(e) => {
                return Err(e);
            },
        };
        Ok(ScaleTicks { autoSkip, align, callback, count, font, includeBounds, maxTicksLimit, padding, precision, stepSize })
    }

    /// Writes the value to the wire.
    pub fn to_value(&self) -> (r: JsValue)
        ensures
            r@ == self.wire_form(),
    {
        let mut members: Vec<(String, JsValue)> = Vec::new();
        assert(members_view(members@) =~= Seq::empty());
        put_option(&mut members, "autoSkip", &self.autoSkip);
        put_scalar(&mut members, "align", &self.align);
        put_scalar(&mut members, "callback", &self.callback);
        put_scalar(&mut members, "count", &self.count);
        put_option(&mut members, "font", &self.font);
        put_option(&mut members, "includeBounds", &self.includeBounds);
        put_scalar(&mut members, "maxTicksLimit", &self.maxTicksLimit);
        put_option(&mut members, "padding", &self.padding);
        put_scalar(&mut members, "precision", &self.precision);
        put_scalar(&mut members, "stepSize", &self.stepSize);
        finish(members)
    }
}

impl Default for ScaleTicks {
    fn default() -> (r: Self)
        ensures
            r.is_new(),
    {
        ScaleTicks::new()
    }
}

impl Serialize for ScaleTicks {
    open spec fn wire(&self) -> JsView {
        self.wire_form()
    }

    fn serialize(&self) -> (r: JsValue)
        ensures
            r@ == self.wire(),
    {
        self.to_value()
    }
}

impl Deserialize for ScaleTicks {
    open spec fn readable(v: JsView) -> bool {
        Self::readable_form(v)
    }

    open spec fn reads(&self, v: JsView) -> bool {
        self.reads_form(v)
    }

    fn deserialize(v: &JsValue) -> (r: Result<Self, DecodeError>)
        ensures
            match r {
                Ok(x) => Self::readable(v@) && x.reads(v@),
                Err(_) => !Self::readable(v@),
            },
    {
        ScaleTicks::from_value(v)
    }
}

/// One axis of a chart.
#[derive(Debug, Clone, PartialEq, Eq)]
pub struct ChartScale {
    pub afterBuildTicks: FnWithArgs<1>,
    pub alignToPixels: Option<bool>,
    pub backgroundColor: String,
    pub barPercentage: NumberString,
    pub beforeFit: FnWithArgs<1>,
    pub beginAtZero: Option<bool>,
    pub border: Option<ScaleBorder>,
    pub bounds: String,
    pub categoryPercentage: NumberString,
    pub display: Option<bool>,
    pub grace: NumberOrDateString,
    pub grid: Option<Grid>,
    pub grouped: Option<bool>,
    pub max: NumberOrDateString,
    pub min: NumberOrDateString,
    pub offset: Option<bool>,
    pub position: String,
    pub reverse: Option<bool>,
    pub stacked: Option<bool>,
    pub suggestedMax: NumberOrDateString,
    pub suggestedMin: NumberOrDateString,
    pub ticks: Option<ScaleTicks>,
    pub time: Option<ScaleTime>,
    pub title: Option<Title>,
    pub r_type: String,
    pub weight: NumberString,
}

impl ChartScale {
    /// Whether every field is as `new` leaves it: nothing is set.
    pub open spec fn is_new(&self) -> bool {
        &&& self.afterBuildTicks@ == fresh(1)
        &&& self.alignToPixels is None
        &&& self.backgroundColor@.len() == 0
        &&& self.barPercentage@.len() == 0
        &&& self.beforeFit@ == fresh(1)
        &&& self.beginAtZero is None
        &&& self.border is None
        &&& self.bounds@.len() == 0
        &&& self.categoryPercentage@.len() == 0
        &&& self.display is None
        &&& self.grace@.len() == 0
        &&& self.grid is None
        &&& self.grouped is None
        &&& self.max@.len() == 0
        &&& self.min@.len() == 0
        &&& self.offset is None
        &&& self.position@.len() == 0
        &&& self.reverse is None
        &&& self.stacked is None
        &&& self.suggestedMax@.len() == 0
        &&& self.suggestedMin@.len() == 0
        &&& self.ticks is None
        &&& self.time is None
        &&& self.title is None
        &&& self.r_type@.len() == 0
        &&& self.weight@.len() == 0
    }

    /// The wire form: an object with one member for each field that is
    /// set, in the order of the fields.
    pub open spec fn wire_form(&self) -> JsView {
        JsView::Object(
            Seq::empty()
                + scalar_entry("afterBuildTicks"@, self.afterBuildTicks)
                + option_entry("alignToPixels"@, self.alignToPixels)
                + scalar_entry("backgroundColor"@, self.backgroundColor)
                + scalar_entry("barPercentage"@, self.barPercentage)
                + scalar_entry("beforeFit"@, self.beforeFit)
                + option_entry("beginAtZero"@, self.beginAtZero)
                + option_entry("border"@, self.border)
                + scalar_entry("bounds"@, self.bounds)
                + scalar_entry("categoryPercentage"@, self.categoryPercentage)
                + option_entry("display"@, self.display)
                + scalar_entry("grace"@, self.grace)
                + option_entry("grid"@, self.grid)
                + option_entry("grouped"@, self.grouped)
                + scalar_entry("max"@, self.max)
                + scalar_entry("min"@, self.min)
                + option_entry("offset"@, self.offset)
                + scalar_entry("position"@, self.position)
                + option_entry("reverse"@, self.reverse)
                + option_entry("stacked"@, self.stacked)
                + scalar_entry("suggestedMax"@, self.suggestedMax)
                + scalar_entry("suggestedMin"@, self.suggestedMin)
                + option_entry("ticks"@, self.ticks)
                + option_entry("time"@, self.time)
                + option_entry("title"@, self.title)
                + scalar_entry("type"@, self.r_type)
                + scalar_entry("weight"@, self.weight)
        )
    }

    /// The value with nothing set.
    pub fn new() -> (r: Self)
        ensures
            r.is_new(),
    {
        ChartScale {
            afterBuildTicks: FnWithArgs::new(),
            alignToPixels: None,
            backgroundColor: String::new(),
            barPercentage: NumberString::default(),
            beforeFit: FnWithArgs::new(),
            beginAtZero: None,
            border: None,
            bounds: String::new(),
            categoryPercentage: NumberString::default(),
            display: None,
            grace: NumberOrDateString::default(),
            grid: None,
            grouped: None,
            max: NumberOrDateString::default(),
            min: NumberOrDateString::default(),
            offset: None,
            position: String::new(),
            reverse: None,
            stacked: None,
            suggestedMax: NumberOrDateString::default(),
            suggestedMin: NumberOrDateString::default(),
            ticks: None,
            time: None,
            title: None,
            r_type: String::new(),
            weight: NumberString::default(),
        }
    }

    /// The field `afterBuildTicks`, to read or to change in place.
    pub fn get_after_build_ticks(&mut self) -> (r: &mut FnWithArgs<1>)
        ensures
            *r == old(self).afterBuildTicks,
            *final(self) == (ChartScale { afterBuildTicks: *final(r), ..*old(self) }),
    {
        &mut self.afterBuildTicks
    }

    /// Sets `afterBuildTicks`.
    pub fn after_build_ticks<V: Into<FnWithArgs<1>>>(self, value: V) -> (r: ChartScale)
        ensures
            call_ensures(<V as Into<FnWithArgs<1>>>::into, (value,), r.afterBuildTicks),
            r == (ChartScale { afterBuildTicks: r.afterBuildTicks, ..self }),
    {
        let mut s = self;
        s.afterBuildTicks = value.into();
        s
    }

    /// The field `alignToPixels`, to read or to change in place.
    pub fn get_align_to_pixels(&mut self) -> (r: &mut Option<bool>)
        ensures
            *r == old(self).alignToPixels,
            *final(self) == (ChartScale { alignToPixels: *final(r), ..*old(self) }),
    {
        &mut self.alignToPixels
    }

    /// Sets `alignToPixels`.
    pub fn align_to_pixels<V: Into<bool>>(self, value: V) -> (r: ChartScale)
        ensures
            r.alignToPixels matches Some(x) && call_ensures(<V as Into<bool>>::into, (value,), x),
            r == (ChartScale { alignToPixels: r.alignToPixels, ..self }),
    {
        let mut s = self;
        s.alignToPixels = Some(value.into());
        s
    }

    /// The field `backgroundColor`, to read or to change in place.
    pub fn get_background_color(&mut self) -> (r: &mut String)
        ensures
            *r == old(self).backgroundColor,
            *final(self) == (ChartScale { backgroundColor: *final(r), ..*old(self) }),
    {
        &mut self.backgroundColor
    }

    /// Sets `backgroundColor`.
    pub fn background_color<V: Into<String>>(self, value: V) -> (r: ChartScale)
        ensures
            call_ensures(<V as Into<String>>::into, (value,), r.backgroundColor),
            r == (ChartScale { backgroundColor: r.backgroundColor, ..self }),
    {
        let mut s = self;
        s.backgroundColor = value.into();
        s
    }

    /// The field `barPercentage`, to read or to change in place.
    pub fn get_bar_percentage(&mut self) -> (r: &mut NumberString)
        ensures
            *r == old(self).barPercentage,
            *final(self) == (ChartScale { barPercentage: *final(r), ..*old(self) }),
    {
        &mut self.barPercentage
    }

    /// Sets `barPercentage`.
    pub fn bar_percentage<V: Into<NumberString>>(self, value: V) -> (r: ChartScale)
        ensures
            call_ensures(<V as Into<NumberString>>::into, (value,), r.barPercentage),
            r == (ChartScale { barPercentage: r.barPercentage, ..self }),
    {
        let mut s = self;
        s.barPercentage = value.into();
        s
    }

    /// The field `beforeFit`, to read or to change in place.
    pub fn get_before_fit(&mut self) -> (r: &mut FnWithArgs<1>)
        ensures
            *r == old(self).beforeFit,
            *final(self) == (ChartScale { beforeFit: *final(r), ..*old(self) }),
    {
        &mut self.beforeFit
    }

    /// Sets `beforeFit`.
    pub fn before_fit<V: Into<FnWithArgs<1>>>(self, value: V) -> (r: ChartScale)
        ensures
            call_ensures(<V as Into<FnWithArgs<1>>>::into, (value,), r.beforeFit),
            r == (ChartScale { beforeFit: r.beforeFit, ..self }),
    {
        let mut s = self;
        s.beforeFit = value.into();
        s
    }

    /// The field `beginAtZero`, to read or to change in place.
    pub fn get_begin_at_zero(&mut self) -> (r: &mut Option<bool>)
        ensures
            *r == old(self).beginAtZero,
            *final(self) == (ChartScale { beginAtZero: *final(r), ..*old(self) }),
    {
        &mut self.beginAtZero
    }

    /// Sets `beginAtZero`.
    pub fn begin_at_zero<V: Into<bool>>(self, value: V) -> (r: ChartScale)
        ensures
            r.beginAtZero matches Some(x) && call_ensures(<V as Into<bool>>::into, (value,), x),
            r == (ChartScale { beginAtZero: r.beginAtZero, ..self }),
    {
        let mut s = self;
        s.beginAtZero = Some(value.into());
        s
    }

    /// The field `border`, to read or to change in place.
    pub fn get_border(&mut self) -> (r: &mut Option<ScaleBorder>)
        ensures
            *r == old(self).border,
            *final(self) == (ChartScale { border: *final(r), ..*old(self) }),
    {
        &mut self.border
    }

    /// Sets `border`.
    pub fn border<V: Into<ScaleBorder>>(self, value: V) -> (r: ChartScale)
        ensures
            r.border matches Some(x) && call_ensures(<V as Into<ScaleBorder>>::into, (value,), x),
            r == (ChartScale { border: r.border, ..self }),
    {
        let mut s = self;
        s.border = Some(value.into());
        s
    }

    /// The field `bounds`, to read or to change in place.
    pub fn get_bounds(&mut self) -> (r: &mut String)
        ensures
            *r == old(self).bounds,
            *final(self) == (ChartScale { bounds: *final(r), ..*old(self) }),
    {
        &mut self.bounds
    }

    /// Sets `bounds`.
    pub fn bounds<V: Into<String>>(self, value: V) -> (r: ChartScale)
        ensures
            call_ensures(<V as Into<String>>::into, (value,), r.bounds),
            r == (ChartScale { bounds: r.bounds, ..self }),
    {
        let mut s = self;
        s.bounds = value.into();
        s
    }

    /// The field `categoryPercentage`, to read or to change in place.
    pub fn get_category_percentage(&mut self) -> (r: &mut NumberString)
        ensures
            *r == old(self).categoryPercentage,
            *final(self) == (ChartScale { categoryPercentage: *final(r), ..*old(self) }),
    {
        &mut self.categoryPercentage
    }

    /// Sets `categoryPercentage`.
    pub fn category_percentage<V: Into<NumberString>>(self, value: V) -> (r: ChartScale)
        ensures
            call_ensures(<V as Into<NumberString>>::into, (value,), r.categoryPercentage),
            r == (ChartScale { categoryPercentage: r.categoryPercentage, ..self }),
    {
        let mut s = self;
        s.categoryPercentage = value.into();
        s
    }

    /// The field `display`, to read or to change in place.
    pub fn get_display(&mut self) -> (r: &mut Option<bool>)
        ensures
            *r == old(self).display,
            *final(self) == (ChartScale { display: *final(r), ..*old(self) }),
    {
        &mut self.display
    }

    /// Sets `display`.
    pub fn display<V: Into<bool>>(self, value: V) -> (r: ChartScale)
        ensures
            r.display matches Some(x) && call_ensures(<V as Into<bool>>::into, (value,), x),
            r == (ChartScale { display: r.display, ..self }),
    {
        let mut s = self;
        s.display = Some(value.into());
        s
    }

    /// The field `grace`, to read or to change in place.
    pub fn get_grace(&mut self) -> (r: &mut NumberOrDateString)
        ensures
            *r == old(self).grace,
            *final(self) == (ChartScale { grace: *final(r), ..*old(self) }),
    {
        &mut self.grace
    }

    /// Sets `grace`.
    pub fn grace<V: Into<NumberOrDateString>>(self, value: V) -> (r: ChartScale)
        ensures
            call_ensures(<V as Into<NumberOrDateString>>::into, (value,), r.grace),
            r == (ChartScale { grace: r.grace, ..self }),
    {
        let mut s = self;
        s.grace = value.into();
        s
    }

    /// The field `grid`, to read or to change in place.
    pub fn get_grid(&mut self) -> (r: &mut Option<Grid>)
        ensures
            *r == old(self).grid,
            *final(self) == (ChartScale { grid: *final(r), ..*old(self) }),
    {
        &mut self.grid
    }

    /// Sets `grid`.
    pub fn grid<V: Into<Grid>>(self, value: V) -> (r: ChartScale)
        ensures
            r.grid matches Some(x) && call_ensures(<V as Into<Grid>>::into, (value,), x),
            r == (ChartScale { grid: r.grid, ..self }),
    {
        let mut s = self;
        s.grid = Some(value.into());
        s
    }

    /// The field `grouped`, to read or to change in place.
    pub fn get_grouped(&mut self) -> (r: &mut Option<bool>)
        ensures
            *r == old(self).grouped,
            *final(self) == (ChartScale { grouped: *final(r), ..*old(self) }),
    {
        &mut self.grouped
    }

    /// Sets `grouped`.
    pub fn grouped<V: Into<bool>>(self, value: V) -> (r: ChartScale)
        ensures
            r.grouped matches Some(x) && call_ensures(<V as Into<bool>>::into, (value,), x),
            r == (ChartScale { grouped: r.grouped, ..self }),
    {
        let mut s = self;
        s.grouped = Some(value.into());
        s
    }

    /// The field `max`, to read or to change in place.
    pub fn get_max(&mut self) -> (r: &mut NumberOrDateString)
        ensures
            *r == old(self).max,
            *final(self) == (ChartScale { max: *final(r), ..*old(self) }),
    {
        &mut self.max
    }

    /// Sets `max`.
    pub fn max<V: Into<NumberOrDateString>>(self, value: V) -> (r: ChartScale)
        ensures
            call_ensures(<V as Into<NumberOrDateString>>::into, (value,), r.max),
            r == (ChartScale { max: r.max, ..self }),
    {
        let mut s = self;
        s.max = value.into();
        s
    }

    /// The field `min`, to read or to change in place.
    pub fn get_min(&mut self) -> (r: &mut NumberOrDateString)
        ensures
            *r == old(self).min,
            *final(self) == (ChartScale { min: *final(r), ..*old(self) }),
    {
        &mut self.min
    }

    /// Sets `min`.
    pub fn min<V: Into<NumberOrDateString>>(self, value: V) -> (r: ChartScale)
        ensures
            call_ensures(<V as Into<NumberOrDateString>>::into, (value,), r.min),
            r == (ChartScale { min: r.min, ..self }),
    {
        let mut s = self;
        s.min = value.into();
        s
    }

    /// The field `offset`, to read or to change in place.
    pub fn get_offset(&mut self) -> (r: &mut Option<bool>)
        ensures
            *r == old(self).offset,
            *final(self) == (ChartScale { offset: *final(r), ..*old(self) }),
    {
        &mut self.offset
    }

    /// Sets `offset`.
    pub fn offset<V: Into<bool>>(self, value: V) -> (r: ChartScale)
        ensures
            r.offset matches Some(x) && call_ensures(<V as Into<bool>>::into, (value,), x),
            r == (ChartScale { offset: r.offset, ..self }),
    {
        let mut s = self;
        s.offset = Some(value.into());
        s
    }

    /// The field `position`, to read or to change in place.
    pub fn get_position(&mut self) -> (r: &mut String)
        ensures
            *r == old(self).position,
            *final(self) == (ChartScale { position: *final(r), ..*old(self) }),
    {
        &mut self.position
    }

    /// Sets `position`.
    pub fn position<V: Into<String>>(self, value: V) -> (r: ChartScale)
        ensures
            call_ensures(<V as Into<String>>::into, (value,), r.position),
            r == (ChartScale { position: r.position, ..self }),
    {
        let mut s = self;
        s.position = value.into();
        s
    }

    /// The field `reverse`, to read or to change in place.
    pub fn get_reverse(&mut self) -> (r: &mut Option<bool>)
        ensures
            *r == old(self).reverse,
            *final(self) == (ChartScale { reverse: *final(r), ..*old(self) }),
    {
        &mut self.reverse
    }

    /// Sets `reverse`.
    pub fn reverse<V: Into<bool>>(self, value: V) -> (r: ChartScale)
        ensures
            r.reverse matches Some(x) && call_ensures(<V as Into<bool>>::into, (value,), x),
            r == (ChartScale { reverse: r.reverse, ..self }),
    {
        let mut s = self;
        s.reverse = Some(value.into());
        s
    }

    /// The field `stacked`, to read or to change in place.
    pub fn get_stacked(&mut self) -> (r: &mut Option<bool>)
        ensures
            *r == old(self).stacked,
            *final(self) == (ChartScale { stacked: *final(r), ..*old(self) }),
    {
        &mut self.stacked
    }

    /// Sets `stacked`.
    pub fn stacked<V: Into<bool>>(self, value: V) -> (r: ChartScale)
        ensures
            r.stacked matches Some(x) && call_ensures(<V as Into<bool>>::into, (value,), x),
            r == (ChartScale { stacked: r.stacked, ..self }),
    {
        let mut s = self;
        s.stacked = Some(value.into());
        s
    }

    /// The field `suggestedMax`, to read or to change in place.
    pub fn get_suggested_max(&mut self) -> (r: &mut NumberOrDateString)
        ensures
            *r == old(self).suggestedMax,
            *final(self) == (ChartScale { suggestedMax: *final(r), ..*old(self) }),
    {
        &mut self.suggestedMax
    }

    /// Sets `suggestedMax`.
    pub fn suggested_max<V: Into<NumberOrDateString>>(self, value: V) -> (r: ChartScale)
        ensures
            call_ensures(<V as Into<NumberOrDateString>>::into, (value,), r.suggestedMax),
            r == (ChartScale { suggestedMax: r.suggestedMax, ..self }),
    {
        let mut s = self;
        s.suggestedMax = value.into();
        s
    }

    /// The field `suggestedMin`, to read or to change in place.
    pub fn get_suggested_min(&mut self) -> (r: &mut NumberOrDateString)
        ensures
            *r == old(self).suggestedMin,
            *final(self) == (ChartScale { suggestedMin: *final(r), ..*old(self) }),
    {
        &mut self.suggestedMin
    }

    /// Sets `suggestedMin`.
    pub fn suggested_min<V: Into<NumberOrDateString>>(self, value: V) -> (r: ChartScale)
        ensures
            call_ensures(<V as Into<NumberOrDateString>>::into, (value,), r.suggestedMin),
            r == (ChartScale { suggestedMin: r.suggestedMin, ..self }),
    {
        let mut s = self;
        s.suggestedMin = value.into();
        s
    }

    /// The field `ticks`, to read or to change in place.
    pub fn get_ticks(&mut self) -> (r: &mut Option<ScaleTicks>)
        ensures
            *r == old(self).ticks,
            *final(self) == (ChartScale { ticks: *final(r), ..*old(self) }),
    {
        &mut self.ticks
    }

    /// Sets `ticks`.
    pub fn ticks<V: Into<ScaleTicks>>(self, value: V) -> (r: ChartScale)
        ensures
            r.ticks matches Some(x) && call_ensures(<V as Into<ScaleTicks>>::into, (value,), x),
            r == (ChartScale { ticks: r.ticks, ..self }),
    {
        let mut s = self;
        s.ticks = Some(value.into());
        s
    }

    /// The field `time`, to read or to change in place.
    pub fn get_time(&mut self) -> (r: &mut Option<ScaleTime>)
        ensures
            *r == old(self).time,
            *final(self) == (ChartScale { time: *final(r), ..*old(self) }),
    {
        &mut self.time
    }

    /// Sets `time`.
    pub fn time<V: Into<ScaleTime>>(self, value: V) -> (r: ChartScale)
        ensures
            r.time matches Some(x) && call_ensures(<V as Into<ScaleTime>>::into, (value,), x),
            r == (ChartScale { time: r.time, ..self }),
    {
        let mut s = self;
        s.time = Some(value.into());
        s
    }

    /// The field `title`, to read or to change in place.
    pub fn get_title(&mut self) -> (r: &mut Option<Title>)
        ensures
            *r == old(self).title,
            *final(self) == (ChartScale { title: *final(r), ..*old(self) }),
    {
        &mut self.title
    }

    /// Sets `title`.
    pub fn title<V: Into<Title>>(self, value: V) -> (r: ChartScale)
        ensures
            r.title matches Some(x) && call_ensures(<V as Into<Title>>::into, (value,), x),
            r == (ChartScale { title: r.title, ..self }),
    {
        let mut s = self;
        s.title = Some(value.into());
        s
    }

    /// The field `type`, to read or to change in place.
    pub fn get_r_type(&mut self) -> (r: &mut String)
        ensures
            *r == old(self).r_type,
            *final(self) == (ChartScale { r_type: *final(r), ..*old(self) }),
    {
        &mut self.r_type
    }

    /// Sets `type`.
    pub fn r_type<V: Into<String>>(self, value: V) -> (r: ChartScale)
        ensures
            call_ensures(<V as Into<String>>::into, (value,), r.r_type),
            r == (ChartScale { r_type: r.r_type, ..self }),
    {
        let mut s = self;
        s.r_type = value.into();
        s
    }

    /// The field `weight`, to read or to change in place.
    pub fn get_weight(&mut self) -> (r: &mut NumberString)
        ensures
            *r == old(self).weight,
            *final(self) == (ChartScale { weight: *final(r), ..*old(self) }),
    {
        &mut self.weight
    }

    /// Sets `weight`.
    pub fn weight<V: Into<NumberString>>(self, value: V) -> (r: ChartScale)
        ensures
            call_ensures(<V as Into<NumberString>>::into, (value,), r.weight),
            r == (ChartScale { weight: r.weight, ..self }),
    {
        let mut s = self;
        s.weight = value.into();
        s
    }

    /// Whether a wire value reads as a value of this kind: an object whose
    /// members, where they are there, read as the fields.
    pub open spec fn readable_form(v: JsView) -> bool {
        &&& v is Object
        &&& optional_readable::<bool>(v, "alignToPixels"@)
        &&& defaulted_readable::<String>(v, "backgroundColor"@)
        &&& defaulted_readable::<NumberString>(v, "barPercentage"@)
        &&& optional_readable::<bool>(v, "beginAtZero"@)
        &&& optional_readable::<ScaleBorder>(v, "border"@)
        &&& defaulted_readable::<String>(v, "bounds"@)
        &&& defaulted_readable::<NumberString>(v, "categoryPercentage"@)
        &&& optional_readable::<bool>(v, "display"@)
        &&& defaulted_readable::<NumberOrDateString>(v, "grace"@)
        &&& optional_readable::<Grid>(v, "grid"@)
        &&& optional_readable::<bool>(v, "grouped"@)
        &&& defaulted_readable::<NumberOrDateString>(v, "max"@)
        &&& defaulted_readable::<NumberOrDateString>(v, "min"@)
        &&& optional_readable::<bool>(v, "offset"@)
        &&& defaulted_readable::<String>(v, "position"@)
        &&& optional_readable::<bool>(v, "reverse"@)
        &&& optional_readable::<bool>(v, "stacked"@)
        &&& defaulted_readable::<NumberOrDateString>(v, "suggestedMax"@)
        &&& defaulted_readable::<NumberOrDateString>(v, "suggestedMin"@)
        &&& optional_readable::<ScaleTicks>(v, "ticks"@)
        &&& optional_readable::<ScaleTime>(v, "time"@)
        &&& optional_readable::<Title>(v, "title"@)
        &&& defaulted_readable::<String>(v, "type"@)
        &&& defaulted_readable::<NumberString>(v, "weight"@)
    }

    /// Whether this value is what a wire value reads as: each field is what
    /// its member reads as, or its default where the member is missing or
    /// the field is never read.
    pub open spec fn reads_form(&self, v: JsView) -> bool {
        &&& skipped_reads(self.afterBuildTicks)
        &&& optional_reads(self.alignToPixels, v, "alignToPixels"@)
        &&& defaulted_reads(self.backgroundColor, v, "backgroundColor"@)
        &&& defaulted_reads(self.barPercentage, v, "barPercentage"@)
        &&& skipped_reads(self.beforeFit)
        &&& optional_reads(self.beginAtZero, v, "beginAtZero"@)
        &&& optional_reads(self.border, v, "border"@)
        &&& defaulted_reads(self.bounds, v, "bounds"@)
        &&& defaulted_reads(self.categoryPercentage, v, "categoryPercentage"@)
        &&& optional_reads(self.display, v, "display"@)
        &&& defaulted_reads(self.grace, v, "grace"@)
        &&& optional_reads(self.grid, v, "grid"@)
        &&& optional_reads(self.grouped, v, "grouped"@)
        &&& defaulted_reads(self.max, v, "max"@)
        &&& defaulted_reads(self.min, v, "min"@)
        &&& optional_reads(self.offset, v, "offset"@)
        &&& defaulted_reads(self.position, v, "position"@)
        &&& optional_reads(self.reverse, v, "reverse"@)
        &&& optional_reads(self.stacked, v, "stacked"@)
        &&& defaulted_reads(self.suggestedMax, v, "suggestedMax"@)
        &&& defaulted_reads(self.suggestedMin, v, "suggestedMin"@)
        &&& optional_reads(self.ticks, v, "ticks"@)
        &&& optional_reads(self.time, v, "time"@)
        &&& optional_reads(self.title, v, "title"@)
        &&& defaulted_reads(self.r_type, v, "type"@)
        &&& defaulted_reads(self.weight, v, "weight"@)
    }

    /// Reads the value off the wire.
    pub fn from_value(v: &JsValue) -> (r: Result<Self, DecodeError>)
        ensures
            match r {
                Ok(x) => Self::readable_form(v@) && x.reads_form(v@),
                Err(_) => !Self::readable_form(v@),
            },
    {
        match v {
            JsValue::Object(_) => {},
            _ => {
                return Err(DecodeError::Shape);
            },
        }
        let afterBuildTicks = read_skipped::<FnWithArgs<1>>();
        let alignToPixels = match read_optional::<bool>(v, "alignToPixels") {
            Ok(x) => x,
            Err(e) => {
                return Err(e);
            },
        };
        let backgroundColor = match read_defaulted::<String>(v, "backgroundColor") {
            Ok(x) => x,
            Err(e) => {
                return Err(e);
            },
        };
        let barPercentage = match read_defaulted::<NumberString>(v, "barPercentage") {
            Ok(x) => x,
            Err(e) => {
                return Err(e);
            },
        };
        let beforeFit = read_skipped::<FnWithArgs<1>>();
        let beginAtZero = match read_optional::<bool>(v, "beginAtZero") {
            Ok(x) => x,
            Err(e) => {
                return Err(e);
            },
        };
        let border = match read_optional::<ScaleBorder>(v, "border") {
            Ok(x) => x,
            Err(e) => {
                return Err(e);
            },
        };
        let bounds = match read_defaulted::<String>(v, "bounds") {
            Ok(x) => x,
            Err(e) => {
                return Err(e);
            },
        };
        let categoryPercentage = match read_defaulted::<NumberString>(v, "categoryPercentage") {
            Ok(x) => x,
            Err(e) => {
                return Err(e);
            },
        };
        let display = match read_optional::<bool>(v, "display") {
            Ok(x) => x,
            Err(e) => {
                return Err(e);
            },
        };
        let grace = match read_defaulted::<NumberOrDateString>(v, "grace") {
            Ok(x) => x,
            Err(e) => {
                return Err(e);
            },
        };
        let grid = match read_optional::<Grid>(v, "grid") {
            Ok(x) => x,
            Err(e) => {
                return Err(e);
            },
        };
        let grouped = match read_optional::<bool>(v, "grouped") {
            Ok(x) => x,
            Err(e) => {
                return Err(e);
            },
        };
        let max = match read_defaulted::<NumberOrDateString>(v, "max") {
            Ok(x) => x,
            Err(e) => {
                return Err(e);
            },
        };
        let min = match read_defaulted::<NumberOrDateString>(v, "min") {
            Ok(x) => x,
            Err(e) => {
                return Err(e);
            },
        };
        let offset = match read_optional::<bool>(v, "offset") {
            Ok(x) => x,
            Err(e) => {
                return Err(e);
            },
        };
        let position = match read_defaulted::<String>(v, "position") {
            Ok(x) => x,
            Err(e) => {
                return Err(e);
            },
        };
        let reverse = match read_optional::<bool>(v, "reverse") {
            Ok(x) => x,
            Err(e) => {
                return Err(e);
            },
        };
        let stacked = match read_optional::<bool>(v, "stacked") {
            Ok(x) => x,
            Err(e) => {
                return Err(e);
            },
        };
        let suggestedMax = match read_defaulted::<NumberOrDateString>(v, "suggestedMax") {
            Ok(x) => x,
            Err(e) => {
                return Err(e);
            },
        };
        let suggestedMin = match read_defaulted::<NumberOrDateString>(v, "suggestedMin") {
            Ok(x) => x,
            Err(e) => {
                return Err(e);
            },
        };
        let ticks = match read_optional::<ScaleTicks>(v, "ticks") {
            Ok(x) => x,
            Err(e) => {
                return Err(e);
            },
        };
        let time = match read_optional::<ScaleTime>(v, "time") {
            Ok(x) => x,
            Err(e) => {
                return Err(e);
            },
        };
        let title = match read_optional::<Title>(v, "title") {
            Ok(x) => x,
            Err(e) => {
                return Err(e);
            },
        };
        let r_type = match read_defaulted::<String>(v, "type") {
            Ok(x) => x,
            Err(e) => {
                return Err(e);
            },
        };
        let weight = match read_defaulted::<NumberString>(v, "weight") {
            Ok(x) => x,
            Err(e) => {
                return Err(e);
            },
        };
        Ok(ChartScale { afterBuildTicks, alignToPixels, backgroundColor, barPercentage, beforeFit, beginAtZero, border, bounds, categoryPercentage, display, grace, grid, grouped, max, min, offset, position, reverse, stacked, suggestedMax, suggestedMin, ticks, time, title, r_type, weight })
    }

    /// Writes the value to the wire.
    pub fn to_value(&self) -> (r: JsValue)
        ensures
            r@ == self.wire_form(),
    {
        let mut members: Vec<(String, JsValue)> = Vec::new();
        assert(members_view(members@) =~= Seq::empty());
        put_scalar(&mut members, "afterBuildTicks", &self.afterBuildTicks);
        put_option(&mut members, "alignToPixels", &self.alignToPixels);
        put_scalar(&mut members, "backgroundColor", &self.backgroundColor);
        put_scalar(&mut members, "barPercentage", &self.barPercentage);
        put_scalar(&mut members, "beforeFit", &self.beforeFit);
        put_option(&mut members, "beginAtZero", &self.beginAtZero);
        put_option(&mut members, "border", &self.border);
        put_scalar(&mut members, "bounds", &self.bounds);
        put_scalar(&mut members, "categoryPercentage", &self.categoryPercentage);
        put_option(&mut members, "display", &self.display);
        put_scalar(&mut members, "grace", &self.grace);
        put_option(&mut members, "grid", &self.grid);
        put_option(&mut members, "grouped", &self.grouped);
        put_scalar(&mut members, "max", &self.max);
        put_scalar(&mut members, "min", &self.min);
        put_option(&mut members, "offset", &self.offset);
        put_scalar(&mut members, "position", &self.position);
        put_option(&mut members, "reverse", &self.reverse);
        put_option(&mut members, "stacked", &self.stacked);
        put_scalar(&mut members, "suggestedMax", &self.suggestedMax);
        put_scalar(&mut members, "suggestedMin", &self.suggestedMin);
        put_option(&mut members, "ticks", &self.ticks);
        put_option(&mut members, "time", &self.time);
        put_option(&mut members, "title", &self.title);
        put_scalar(&mut members, "type", &self.r_type);
        put_scalar(&mut members, "weight", &self.weight);
        finish(members)
    }
}

impl Default for ChartScale {
    fn default() -> (r: Self)
        ensures
            r.is_new(),
    {
        ChartScale::new()
    }
}

impl Serialize for ChartScale {
    open spec fn wire(&self) -> JsView {
        self.wire_form()
    }

    fn serialize(&self) -> (r: JsValue)
        ensures
            r@ == self.wire(),
    {
        self.to_value()
    }
}

impl Deserialize for ChartScale {
    open spec fn readable(v: JsView) -> bool {
        Self::readable_form(v)
    }

    open spec fn reads(&self, v: JsView) -> bool {
        self.reads_form(v)
    }

    fn deserialize(v: &JsValue) -> (r: Result<Self, DecodeError>)
        ensures
            match r {
                Ok(x) => Self::readable(v@) && x.reads(v@),
                Err(_) => !Self::readable(v@),
            },
    {
        ChartScale::from_value(v)
    }
}
} // verus!
